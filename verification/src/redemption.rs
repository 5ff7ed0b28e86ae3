//! The redemption record a notification frame carries, and its extraction
//! from the frame's payload.

use vstd::prelude::*;
use crate::json::{json_as_str, json_get, spec_get, spec_get_str, JsonValue};

verus! {

/// A viewer's redemption of a reward, as the action handler receives it.
pub struct RedemptionEvent {
    pub user_name: String,
    pub reward_title: String,
}

/// The redeeming viewer's name of an event object, with `"unknown user"`
/// standing in where the `user_name` field is missing or not a string.
pub open spec fn spec_event_user_name(ev: JsonValue) -> Seq<char> {
    match spec_get_str(ev, "user_name"@) {
        Some(s) => s,
        None => "unknown user"@,
    }
}

/// The redeemed reward's title of an event object, with `"unknown reward"`
/// standing in where `reward.title` is missing or not a string.
pub open spec fn spec_event_reward_title(ev: JsonValue) -> Seq<char> {
    match spec_get(ev, "reward"@) {
        Some(r) => match spec_get_str(r, "title"@) {
            Some(t) => t,
            None => "unknown reward"@,
        },
        None => "unknown reward"@,
    }
}

/// The redemption a notification payload describes: the user name and reward
/// title of its `event` object, defaults filled in, or `None` when the
/// payload has no `event` object.
pub open spec fn spec_redemption_of(payload: JsonValue) -> Option<(Seq<char>, Seq<char>)> {
    match spec_get(payload, "event"@) {
        Some(ev) => Some((spec_event_user_name(ev), spec_event_reward_title(ev))),
        None => None,
    }
}

/// Builds the redemption record of a notification payload: `Some` exactly
/// when the payload holds an `event` object, with the viewer's name and the
/// reward's title read from it and the documented defaults filled in.
pub fn handle_redemption(payload: &JsonValue) -> (r: Option<RedemptionEvent>)
    ensures
        match r {
            Some(ev) => spec_redemption_of(*payload) == Some((ev.user_name@, ev.reward_title@)),
            None => spec_redemption_of(*payload) is None,
        },
{
    let event = match json_get(payload, "event") {
        Some(ev) => ev,
        None => {
            return None;
        },
    };
    let user_name: String = match json_get(event, "user_name") {
        Some(u) => match json_as_str(u) {
            Some(s) => s.to_owned(),
            None => String::from_str("unknown user"),
        },
        None => String::from_str("unknown user"),
    };
    let reward_title: String = match json_get(event, "reward") {
        Some(r) => match json_get(r, "title") {
            Some(t) => match json_as_str(t) {
                Some(s) => s.to_owned(),
                None => String::from_str("unknown reward"),
            },
            None => String::from_str("unknown reward"),
        },
        None => String::from_str("unknown reward"),
    };
    Some(RedemptionEvent { user_name, reward_title })
}

/// An event object without a `user_name` string falls back to
/// `"unknown user"`, and one without a `reward.title` string falls back to
/// `"unknown reward"`; neither absence is an error.
pub proof fn lemma_missing_fields_default(ev: JsonValue)
    ensures
        spec_get_str(ev, "user_name"@) is None ==> spec_event_user_name(ev) == "unknown user"@,
        (match spec_get(ev, "reward"@) {
            Some(r) => spec_get_str(r, "title"@) is None,
            None => true,
        }) ==> spec_event_reward_title(ev) == "unknown reward"@,
{
}

} // verus!
