//! The event-subscription session lifecycle: welcome-frame handling, the
//! handshake countdown, identity resolution, subscription registration, and
//! the dispatch decision for inbound notification frames.

use vstd::prelude::*;
use crate::json::{
    json_as_str, json_arr_first, json_get, json_of, parse_json, spec_arr_first, spec_get,
    spec_get_str, JsonValue,
};
use crate::redemption::{handle_redemption, spec_redemption_of, RedemptionEvent};
use crate::text::{
    chars_to_string, is_all_digits, is_digit_seq, json_escape_chars, json_escaped, push_decimal,
    spec_decimal, str_eq,
};

verus! {

/// Whether a parsed frame is the session welcome: its `metadata.message_type`
/// field reads `"session_welcome"`.
pub open spec fn is_welcome(v: JsonValue) -> bool {
    match spec_get(v, "metadata"@) {
        Some(meta) => spec_get_str(meta, "message_type"@) == Some("session_welcome"@),
        None => false,
    }
}

/// The session identifier a welcome frame carries: the non-empty string under
/// `payload.session.id`, and only on a frame that [`is_welcome`] accepts.
pub open spec fn welcome_session_id(v: JsonValue) -> Option<Seq<char>> {
    if is_welcome(v) {
        match spec_get(v, "payload"@) {
            Some(p) => match spec_get(p, "session"@) {
                Some(s) => match spec_get_str(s, "id"@) {
                    Some(id) => if id.len() > 0 {
                        Some(id)
                    } else {
                        None
                    },
                    None => None,
                },
                None => None,
            },
            None => None,
        }
    } else {
        None
    }
}

/// What session-id extraction yields on a piece of text: the identifier of
/// the welcome frame the text parses to, `None` on malformed text or on any
/// other frame.
pub open spec fn spec_extract_session_id(text: Seq<char>) -> Option<Seq<char>> {
    match json_of(text) {
        Some(v) => welcome_session_id(v),
        None => None,
    }
}

/// Extracts the session identifier from the text of a welcome frame.
///
/// Returns `Some` exactly when the text parses, `metadata.message_type` reads
/// `"session_welcome"`, and `payload.session.id` is a non-empty string; the
/// result is then that string.
pub fn extract_session_id(text: &str) -> (r: Option<String>)
    ensures
        match r {
            Some(s) => spec_extract_session_id(text@) == Some(s@),
            None => spec_extract_session_id(text@) is None,
        },
{
    let parsed = match parse_json(text) {
        Some(v) => v,
        None => {
            return None;
        },
    };
    let meta = match json_get(&parsed, "metadata") {
        Some(m) => m,
        None => {
            return None;
        },
    };
    let message_type = match json_get(meta, "message_type") {
        Some(t) => match json_as_str(t) {
            Some(s) => s,
            None => {
                return None;
            },
        },
        None => {
            return None;
        },
    };
    if !str_eq(message_type, "session_welcome") {
        return None;
    }
    let payload = match json_get(&parsed, "payload") {
        Some(p) => p,
        None => {
            return None;
        },
    };
    let session = match json_get(payload, "session") {
        Some(s) => s,
        None => {
            return None;
        },
    };
    let id = match json_get(session, "id") {
        Some(i) => match json_as_str(i) {
            Some(s) => s,
            None => {
                return None;
            },
        },
        None => {
            return None;
        },
    };
    if id.is_empty() {
        return None;
    }
    Some(id.to_owned())
}

/// Any text that parses to a welcome frame carrying a non-empty session
/// identifier yields exactly that identifier.
pub proof fn lemma_welcome_yields_session_id(text: Seq<char>, v: JsonValue, id: Seq<char>)
    requires
        json_of(text) == Some(v),
        is_welcome(v),
        spec_get(v, "payload"@) matches Some(p) && spec_get(p, "session"@) matches Some(s)
            && spec_get_str(s, "id"@) == Some(id),
        id.len() > 0,
    ensures
        spec_extract_session_id(text) == Some(id),
{
}

/// Any text that does not parse, or whose frame is not the session welcome,
/// yields no session identifier.
pub proof fn lemma_no_welcome_no_session_id(text: Seq<char>)
    requires
        match json_of(text) {
            Some(v) => !is_welcome(v),
            None => true,
        },
    ensures
        spec_extract_session_id(text) is None,
{
}

/// A frame as the dispatch loop sees it: the text of a text frame, or
/// anything else the transport may deliver.
pub enum InboundFrame {
    Text(String),
    NonText,
}

/// The subscription type a parsed frame names under
/// `payload.subscription.type`, if any.
pub open spec fn spec_notification_type(v: JsonValue) -> Option<Seq<char>> {
    match spec_get(v, "payload"@) {
        Some(p) => match spec_get(p, "subscription"@) {
            Some(s) => spec_get_str(s, "type"@),
            None => None,
        },
        None => None,
    }
}

/// What the dispatch loop does with one frame.
pub enum DispatchStep {
    /// Hand this redemption to the action handler.
    Dispatch(RedemptionEvent),
    /// Read on; the frame asks for no action.
    Ignore,
    /// Malformed text: the loop ends with a parse error.
    Fail,
}

/// The dispatch decision, over the model: ignore a non-text frame, fail on
/// malformed text, and on a frame naming the subscribed type dispatch the
/// redemption its payload carries (ignoring it when the payload has no
/// `event` object).
pub open spec fn spec_dispatch_frame(frame: InboundFrame, subscribed: Seq<char>) -> SpecDispatch {
    match frame {
        InboundFrame::NonText => SpecDispatch::Ignore,
        InboundFrame::Text(t) => match json_of(t@) {
            None => SpecDispatch::Fail,
            Some(v) => if spec_notification_type(v) == Some(subscribed) {
                match spec_get(v, "payload"@) {
                    Some(p) => match spec_redemption_of(p) {
                        Some(uw) => SpecDispatch::Dispatch(uw.0, uw.1),
                        None => SpecDispatch::Ignore,
                    },
                    None => SpecDispatch::Ignore,
                }
            } else {
                SpecDispatch::Ignore
            },
        },
    }
}

/// The abstract form of a dispatch decision, for contracts.
pub enum SpecDispatch {
    Dispatch(Seq<char>, Seq<char>),
    Ignore,
    Fail,
}

/// Decides what to do with one inbound frame, given the subscribed event
/// type, with [`spec_dispatch_frame`] as its meaning.
pub fn dispatch_frame(frame: &InboundFrame, subscribed_type: &str) -> (r: DispatchStep)
    ensures
        match r {
            DispatchStep::Dispatch(ev) => spec_dispatch_frame(*frame, subscribed_type@)
                == SpecDispatch::Dispatch(ev.user_name@, ev.reward_title@),
            DispatchStep::Ignore => spec_dispatch_frame(*frame, subscribed_type@)
                is Ignore,
            DispatchStep::Fail => spec_dispatch_frame(*frame, subscribed_type@) is Fail,
        },
{
    let text = match frame {
        InboundFrame::Text(t) => t,
        InboundFrame::NonText => {
            return DispatchStep::Ignore;
        },
    };
    let parsed = match parse_json(text.as_str()) {
        Some(v) => v,
        None => {
            return DispatchStep::Fail;
        },
    };
    let payload = match json_get(&parsed, "payload") {
        Some(p) => p,
        None => {
            return DispatchStep::Ignore;
        },
    };
    let frame_type = match json_get(payload, "subscription") {
        Some(s) => match json_get(s, "type") {
            Some(t) => json_as_str(t),
            None => None,
        },
        None => None,
    };
    let eligible = match frame_type {
        Some(t) => str_eq(t, subscribed_type),
        None => false,
    };
    if !eligible {
        return DispatchStep::Ignore;
    }
    match handle_redemption(payload) {
        Some(ev) => DispatchStep::Dispatch(ev),
        None => DispatchStep::Ignore,
    }
}

/// A notification frame whose `payload.subscription.type` differs from the
/// subscribed event type is never dispatched.
pub proof fn lemma_mismatched_type_not_dispatched(
    frame: InboundFrame,
    v: JsonValue,
    subscribed: Seq<char>,
)
    requires
        frame matches InboundFrame::Text(t) && json_of(t@) == Some(v),
        spec_notification_type(v) != Some(subscribed),
    ensures
        !(spec_dispatch_frame(frame, subscribed) matches SpecDispatch::Dispatch(u, w)),
{
}

/// A notification frame naming the subscribed type, whose payload carries an
/// `event` object, is dispatched with exactly the redemption that object
/// describes.
pub proof fn lemma_eligible_frame_dispatched(
    frame: InboundFrame,
    v: JsonValue,
    subscribed: Seq<char>,
    user: Seq<char>,
    reward: Seq<char>,
)
    requires
        frame matches InboundFrame::Text(t) && json_of(t@) == Some(v),
        spec_notification_type(v) == Some(subscribed),
        spec_get(v, "payload"@) matches Some(p) && spec_redemption_of(p) == Some((user, reward)),
    ensures
        spec_dispatch_frame(frame, subscribed) == SpecDispatch::Dispatch(user, reward),
{
}

/// True on the HTTP statuses the upstream API counts as success.
pub open spec fn spec_is_success(status: u16) -> bool {
    200 <= status && status < 300
}

/// Why the identity lookup failed.
#[derive(Debug, PartialEq, Eq)]
pub enum ResolutionError {
    /// The lookup call came back with this non-success HTTP status.
    UpstreamError(u16),
    /// A success response without a usable account entry.
    NotFound,
}

impl ResolutionError {
    /// The error text; an upstream failure names the HTTP status.
    pub fn message(&self) -> (r: String)
        ensures
            match *self {
                ResolutionError::UpstreamError(s) => r@ == "Failed to fetch broadcaster id: "@
                    + spec_decimal(s as nat),
                ResolutionError::NotFound => r@ == "No broadcaster id found"@,
            },
    {
        match self {
            ResolutionError::UpstreamError(s) => {
                let mut digits: Vec<char> = Vec::new();
                push_decimal(&mut digits, *s);
                let mut m = String::from_str("Failed to fetch broadcaster id: ");
                let tail = chars_to_string(&digits);
                m.append(tail.as_str());
                m
            },
            ResolutionError::NotFound => String::from_str("No broadcaster id found"),
        }
    }
}

/// The broadcaster identifier a lookup response body carries: the `id` field
/// of the first entry of its `data` list, provided that field is a non-empty
/// string of decimal digits.
pub open spec fn spec_lookup_id(v: JsonValue) -> Option<Seq<char>> {
    match spec_get(v, "data"@) {
        Some(d) => match spec_arr_first(d) {
            Some(entry) => match spec_get_str(entry, "id"@) {
                Some(id) => if id.len() > 0 && is_digit_seq(id) {
                    Some(id)
                } else {
                    None
                },
                None => None,
            },
            None => None,
        },
        None => None,
    }
}

/// Decides the identity lookup from the HTTP status and response body.
///
/// A non-success status is an upstream error naming that status. On a
/// success status, the result is the numeric identifier the body's `data`
/// list carries, and `NotFound` when the body is malformed or carries none.
pub fn resolve_broadcaster_id(status: u16, body: &str) -> (r: Result<String, ResolutionError>)
    ensures
        match r {
            Ok(id) => spec_is_success(status) && (match json_of(body@) {
                Some(v) => spec_lookup_id(v) == Some(id@),
                None => false,
            }),
            Err(ResolutionError::UpstreamError(s)) => s == status && !spec_is_success(status),
            Err(ResolutionError::NotFound) => spec_is_success(status) && (match json_of(body@) {
                Some(v) => spec_lookup_id(v) is None,
                None => true,
            }),
        },
{
    if !(200 <= status && status < 300) {
        return Err(ResolutionError::UpstreamError(status));
    }
    let parsed = match parse_json(body) {
        Some(v) => v,
        None => {
            return Err(ResolutionError::NotFound);
        },
    };
    let entry = match json_get(&parsed, "data") {
        Some(d) => match json_arr_first(d) {
            Some(e) => e,
            None => {
                return Err(ResolutionError::NotFound);
            },
        },
        None => {
            return Err(ResolutionError::NotFound);
        },
    };
    let id = match json_get(entry, "id") {
        Some(i) => match json_as_str(i) {
            Some(s) => s,
            None => {
                return Err(ResolutionError::NotFound);
            },
        },
        None => {
            return Err(ResolutionError::NotFound);
        },
    };
    if id.is_empty() {
        return Err(ResolutionError::NotFound);
    }
    if !is_all_digits(id) {
        return Err(ResolutionError::NotFound);
    }
    Ok(id.to_owned())
}

/// A lookup response whose account list is missing or empty never resolves:
/// the lookup reports `NotFound`, not success.
pub proof fn lemma_empty_account_list_not_found(v: JsonValue)
    requires
        match spec_get(v, "data"@) {
            Some(d) => spec_arr_first(d) is None,
            None => true,
        },
    ensures
        spec_lookup_id(v) is None,
{
}

/// Registration was rejected; the server's response body rides along.
#[derive(Debug)]
pub struct RegistrationError {
    pub body: String,
}

impl RegistrationError {
    /// The error text, carrying the server's response body.
    pub fn message(&self) -> (r: String)
        ensures
            r@ == "Failed to register subscription: "@ + self.body@,
    {
        let mut m = String::from_str("Failed to register subscription: ");
        m.append(self.body.as_str());
        m
    }
}

/// Decides the registration call from the HTTP status and response body:
/// success exactly on a success status, and otherwise an error carrying the
/// response body.
pub fn evaluate_registration(status: u16, body: &str) -> (r: Result<(), RegistrationError>)
    ensures
        match r {
            Ok(u) => spec_is_success(status),
            Err(e) => !spec_is_success(status) && e.body@ == body@,
        },
{
    if 200 <= status && status < 300 {
        Ok(())
    } else {
        Err(RegistrationError { body: body.to_owned() })
    }
}

/// The one event type this bot subscribes to, in the contracts.
pub open spec fn spec_event_type() -> Seq<char> {
    "channel.channel_points_custom_reward_redemption.add"@
}

/// The one event type this bot subscribes to.
pub fn subscribed_event_type() -> (r: &'static str)
    ensures
        r@ == spec_event_type(),
{
    "channel.channel_points_custom_reward_redemption.add"
}

/// The registration request body for a broadcaster and a session: the
/// subscribed event type at version 1, the broadcaster as condition, and a
/// websocket transport bound to the session.
pub open spec fn spec_subscription_payload(bid: Seq<char>, sid: Seq<char>) -> Seq<char> {
    "{\"type\":\""@ + spec_event_type()
        + "\",\"version\":\"1\",\"condition\":{\"broadcaster_user_id\":\""@ + json_escaped(bid)
        + "\"},\"transport\":{\"method\":\"websocket\",\"session_id\":\""@ + json_escaped(sid)
        + "\"}}"@
}

/// Builds the registration request body, character for character as
/// [`spec_subscription_payload`] states it.
pub fn build_subscription_payload(broadcaster_id: &str, session_id: &str) -> (r: String)
    ensures
        r@ == spec_subscription_payload(broadcaster_id@, session_id@),
{
    let mut out = String::from_str("{\"type\":\"");
    out.append(subscribed_event_type());
    out.append("\",\"version\":\"1\",\"condition\":{\"broadcaster_user_id\":\"");
    let mut bid_chars: Vec<char> = Vec::new();
    json_escape_chars(broadcaster_id, &mut bid_chars);
    let bid_escaped = chars_to_string(&bid_chars);
    out.append(bid_escaped.as_str());
    out.append("\"},\"transport\":{\"method\":\"websocket\",\"session_id\":\"");
    let mut sid_chars: Vec<char> = Vec::new();
    json_escape_chars(session_id, &mut sid_chars);
    let sid_escaped = chars_to_string(&sid_chars);
    out.append(sid_escaped.as_str());
    out.append("\"}}");
    proof {
        assert(out@ =~= spec_subscription_payload(broadcaster_id@, session_id@));
    }
    out
}

/// Why the handshake failed.
#[derive(Debug, PartialEq, Eq)]
pub enum HandshakeError {
    /// The duplex connection could not be opened.
    ConnectionError,
    /// No welcome frame arrived within the polling ceiling.
    HandshakeTimeout,
}

/// How many one-second polls the handshake waits for the welcome frame.
pub const HANDSHAKE_POLLS: u8 = 10;

/// The handshake's remaining patience.
pub struct HandshakeState {
    pub polls_left: u8,
}

/// What one handshake poll decides.
pub enum HandshakeStep {
    /// The welcome arrived: the session identifier.
    Accept(String),
    /// Nothing usable yet: sleep one second and poll again.
    Retry(HandshakeState),
    /// Patience exhausted: the handshake fails with a timeout.
    GiveUp,
}

/// The session identifier carried by one polled frame, if any: only a text
/// frame that reads as the welcome carries one.
pub open spec fn spec_polled_welcome(frame: Option<InboundFrame>) -> Option<Seq<char>> {
    match frame {
        Some(InboundFrame::Text(t)) => spec_extract_session_id(t@),
        _ => None,
    }
}

/// Starts the handshake with its full polling budget.
pub fn handshake_start() -> (s: HandshakeState)
    ensures
        s.polls_left == HANDSHAKE_POLLS,
{
    HandshakeState { polls_left: HANDSHAKE_POLLS }
}

/// Decides one handshake poll: accept on a welcome frame with its session
/// identifier, retry with one poll less while any remain, and give up once
/// the budget is spent. Frames other than the welcome are ignored, never an
/// error.
pub fn handshake_step(state: HandshakeState, frame: &Option<InboundFrame>) -> (r: HandshakeStep)
    ensures
        match r {
            HandshakeStep::Accept(sid) => spec_polled_welcome(*frame) == Some(sid@),
            HandshakeStep::Retry(next) => spec_polled_welcome(*frame) is None && state.polls_left
                > 1 && next.polls_left == state.polls_left - 1,
            HandshakeStep::GiveUp => spec_polled_welcome(*frame) is None && state.polls_left <= 1,
        },
{
    match frame {
        Some(InboundFrame::Text(t)) => {
            match extract_session_id(t.as_str()) {
                Some(sid) => {
                    return HandshakeStep::Accept(sid);
                },
                None => {},
            }
        },
        _ => {},
    }
    if state.polls_left > 1 {
        HandshakeStep::Retry(HandshakeState { polls_left: state.polls_left - 1 })
    } else {
        HandshakeStep::GiveUp
    }
}

/// Where the service stands in its setup-then-loop lifecycle.
pub enum ServicePhase {
    /// Looking the broadcaster's numeric identifier up.
    ResolvingIdentity,
    /// Connection opening and welcome frame pending.
    AwaitingWelcome,
    /// Subscription registration pending.
    Registering,
    /// The long-running frame loop.
    Dispatching,
    /// The frame stream ended; the service is done.
    Ended,
    /// A setup step or the loop failed.
    Failed,
}

/// The orchestrator's state: its phase plus what setup has produced so far.
pub struct ServiceState {
    pub phase: ServicePhase,
    pub broadcaster_id: Option<String>,
    pub session_id: Option<String>,
}

/// Each phase holds exactly the identifiers the finished steps produced, and
/// a held session identifier is never empty. In particular a registration
/// can only be pending once a non-empty session identifier exists, and the
/// frame loop only runs with both identifiers in hand.
pub open spec fn service_wf(s: ServiceState) -> bool {
    match s.phase {
        ServicePhase::ResolvingIdentity => s.broadcaster_id is None && s.session_id is None,
        ServicePhase::AwaitingWelcome => s.broadcaster_id is Some && s.session_id is None,
        ServicePhase::Registering => s.broadcaster_id is Some && (match s.session_id {
            Some(sid) => sid@.len() > 0,
            None => false,
        }),
        ServicePhase::Dispatching => s.broadcaster_id is Some && (match s.session_id {
            Some(sid) => sid@.len() > 0,
            None => false,
        }),
        ServicePhase::Ended => true,
        ServicePhase::Failed => true,
    }
}

/// What the world reports back to the orchestrator.
pub enum ServiceEvent {
    /// The identity lookup finished.
    Resolved(Result<String, ResolutionError>),
    /// The handshake finished: the session identifier, or why not.
    Welcome(Result<String, HandshakeError>),
    /// The registration call finished.
    Registered(Result<(), RegistrationError>),
    /// The connection delivered a frame.
    Frame(InboundFrame),
    /// The frame stream ended.
    StreamEnded,
    /// Reading from the connection failed.
    ReadFailed,
}

/// What the orchestrator asks for next.
pub enum ServiceAction {
    /// Look the broadcaster up.
    Resolve,
    /// Open the connection and await the welcome frame.
    Handshake,
    /// Send this registration request body.
    Register(String),
    /// Read the next frame.
    Read,
    /// Hand this redemption to the action handler, then read on.
    Dispatch(RedemptionEvent),
    /// Stop; the phase says how it went.
    Stop,
}

/// The events a phase can be answered with: each phase accepts exactly the
/// outcome of the action it asked for, and an accepted session identifier is
/// never empty (the handshake guarantees as much).
pub open spec fn event_fits(phase: ServicePhase, event: ServiceEvent) -> bool {
    match event {
        ServiceEvent::Resolved(r) => phase is ResolvingIdentity,
        ServiceEvent::Welcome(r) => phase is AwaitingWelcome && (match r {
            Ok(sid) => sid@.len() > 0,
            Err(e) => true,
        }),
        ServiceEvent::Registered(r) => phase is Registering,
        ServiceEvent::Frame(f) => phase is Dispatching,
        ServiceEvent::StreamEnded => phase is Dispatching,
        ServiceEvent::ReadFailed => phase is Dispatching,
    }
}

/// Starts the service: identity resolution comes first.
pub fn service_start() -> (r: (ServiceState, ServiceAction))
    ensures
        r.0.phase is ResolvingIdentity,
        r.0.broadcaster_id is None,
        r.0.session_id is None,
        service_wf(r.0),
        r.1 is Resolve,
{
    (
        ServiceState { phase: ServicePhase::ResolvingIdentity, broadcaster_id: None, session_id: None },
        ServiceAction::Resolve,
    )
}

/// Advances the service by one event and says what to do next.
///
/// Setup outcomes move the service forward on success and end it on failure;
/// a welcome hands over to registration with the request body already built;
/// frames are decided by [`dispatch_frame`] against the subscribed event
/// type; the stream's end closes the service, a read or parse failure ends
/// it abnormally. Well-formedness is preserved: no registration is asked for
/// before a non-empty session identifier exists, and no read before
/// registration succeeded.
pub fn service_step(state: ServiceState, event: ServiceEvent) -> (r: (ServiceState, ServiceAction))
    requires
        service_wf(state),
        event_fits(state.phase, event),
    ensures
        service_wf(r.0),
        match event {
            ServiceEvent::Resolved(res) => match res {
                Ok(bid) => r.0.phase is AwaitingWelcome && r.0.broadcaster_id == Some(bid)
                    && r.0.session_id is None && r.1 is Handshake,
                Err(e) => r.0.phase is Failed && r.1 is Stop,
            },
            ServiceEvent::Welcome(res) => match res {
                Ok(sid) => r.0.phase is Registering && r.0.broadcaster_id == state.broadcaster_id
                    && r.0.session_id == Some(sid) && (r.1 matches ServiceAction::Register(p)
                    && (match state.broadcaster_id {
                    Some(bid) => p@ == spec_subscription_payload(bid@, sid@),
                    None => false,
                })),
                Err(e) => r.0.phase is Failed && r.1 is Stop,
            },
            ServiceEvent::Registered(res) => match res {
                Ok(u) => r.0.phase is Dispatching && r.0.broadcaster_id == state.broadcaster_id
                    && r.0.session_id == state.session_id && r.1 is Read,
                Err(e) => r.0.phase is Failed && r.1 is Stop,
            },
            ServiceEvent::Frame(f) => match spec_dispatch_frame(f, spec_event_type()) {
                SpecDispatch::Dispatch(u, w) => r.0.phase is Dispatching && r.0.broadcaster_id
                    == state.broadcaster_id && r.0.session_id == state.session_id && (r.1
                    matches ServiceAction::Dispatch(ev) && ev.user_name@ == u
                    && ev.reward_title@ == w),
                SpecDispatch::Ignore => r.0.phase is Dispatching && r.0.broadcaster_id
                    == state.broadcaster_id && r.0.session_id == state.session_id && r.1 is Read,
                SpecDispatch::Fail => r.0.phase is Failed && r.1 is Stop,
            },
            ServiceEvent::StreamEnded => r.0.phase is Ended && r.1 is Stop,
            ServiceEvent::ReadFailed => r.0.phase is Failed && r.1 is Stop,
        },
{
    match event {
        ServiceEvent::Resolved(res) => match res {
            Ok(bid) => (
                ServiceState {
                    phase: ServicePhase::AwaitingWelcome,
                    broadcaster_id: Some(bid),
                    session_id: None,
                },
                ServiceAction::Handshake,
            ),
            Err(e) => (
                ServiceState { phase: ServicePhase::Failed, ..state },
                ServiceAction::Stop,
            ),
        },
        ServiceEvent::Welcome(res) => match res {
            Ok(sid) => {
                let payload = match &state.broadcaster_id {
                    Some(bid) => build_subscription_payload(bid.as_str(), sid.as_str()),
                    None => vstd::pervasive::unreached(),
                };
                (
                    ServiceState {
                        phase: ServicePhase::Registering,
                        broadcaster_id: state.broadcaster_id,
                        session_id: Some(sid),
                    },
                    ServiceAction::Register(payload),
                )
            },
            Err(e) => (
                ServiceState { phase: ServicePhase::Failed, ..state },
                ServiceAction::Stop,
            ),
        },
        ServiceEvent::Registered(res) => match res {
            Ok(u) => (
                ServiceState { phase: ServicePhase::Dispatching, ..state },
                ServiceAction::Read,
            ),
            Err(e) => (
                ServiceState { phase: ServicePhase::Failed, ..state },
                ServiceAction::Stop,
            ),
        },
        ServiceEvent::Frame(f) => match dispatch_frame(&f, subscribed_event_type()) {
            DispatchStep::Dispatch(ev) => (
                ServiceState { phase: ServicePhase::Dispatching, ..state },
                ServiceAction::Dispatch(ev),
            ),
            DispatchStep::Ignore => (
                ServiceState { phase: ServicePhase::Dispatching, ..state },
                ServiceAction::Read,
            ),
            DispatchStep::Fail => (
                ServiceState { phase: ServicePhase::Failed, ..state },
                ServiceAction::Stop,
            ),
        },
        ServiceEvent::StreamEnded => (
            ServiceState { phase: ServicePhase::Ended, ..state },
            ServiceAction::Stop,
        ),
        ServiceEvent::ReadFailed => (
            ServiceState { phase: ServicePhase::Failed, ..state },
            ServiceAction::Stop,
        ),
    }
}

} // verus!
