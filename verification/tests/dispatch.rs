use soundbot::eventsub::{
    dispatch_frame, handshake_start, handshake_step, subscribed_event_type, DispatchStep,
    HandshakeStep, InboundFrame,
};
use soundbot::json::JsonValue;
use soundbot::redemption::handle_redemption;

fn notification_text(event_type: &str) -> String {
    format!(
        "{{\"payload\":{{\"subscription\":{{\"type\":\"{}\"}},\"event\":{{\"user_name\":\"TestUser\",\"reward\":{{\"title\":\"CoolSound\"}}}}}}}}",
        event_type
    )
}

#[test]
fn test_handle_redemption() {
    let payload = JsonValue::Obj(vec![(
        "event".to_string(),
        JsonValue::Obj(vec![
            (
                "reward".to_string(),
                JsonValue::Obj(vec![(
                    "title".to_string(),
                    JsonValue::Str("CoolSound".to_string()),
                )]),
            ),
            ("user_name".to_string(), JsonValue::Str("TestUser".to_string())),
        ]),
    )]);
    let result = handle_redemption(&payload);
    assert!(result.is_some());
    let ev = result.unwrap();
    assert_eq!(ev.user_name, "TestUser");
    assert_eq!(ev.reward_title, "CoolSound");
}

#[test]
fn test_handle_redemption_no_event_object() {
    let payload = JsonValue::Obj(vec![(
        "subscription".to_string(),
        JsonValue::Obj(vec![]),
    )]);
    assert!(handle_redemption(&payload).is_none());
}

#[test]
fn test_eligible_frame_dispatches_exact_event() {
    let frame = InboundFrame::Text(notification_text(subscribed_event_type()));
    let mut dispatched: u32 = 0;
    match dispatch_frame(&frame, subscribed_event_type()) {
        DispatchStep::Dispatch(ev) => {
            dispatched += 1;
            assert_eq!(ev.user_name, "TestUser");
            assert_eq!(ev.reward_title, "CoolSound");
        }
        _ => panic!("eligible frame was not dispatched"),
    }
    assert_eq!(dispatched, 1);
}

#[test]
fn test_mismatched_type_not_dispatched() {
    let frame = InboundFrame::Text(notification_text("channel.follow"));
    assert!(matches!(
        dispatch_frame(&frame, subscribed_event_type()),
        DispatchStep::Ignore
    ));
}

#[test]
fn test_missing_user_name_defaults() {
    let text = format!(
        "{{\"payload\":{{\"subscription\":{{\"type\":\"{}\"}},\"event\":{{\"reward\":{{\"title\":\"CoolSound\"}}}}}}}}",
        subscribed_event_type()
    );
    match dispatch_frame(&InboundFrame::Text(text), subscribed_event_type()) {
        DispatchStep::Dispatch(ev) => {
            assert_eq!(ev.user_name, "unknown user");
            assert_eq!(ev.reward_title, "CoolSound");
        }
        _ => panic!("frame was not dispatched"),
    }
}

#[test]
fn test_missing_reward_title_defaults() {
    let text = format!(
        "{{\"payload\":{{\"subscription\":{{\"type\":\"{}\"}},\"event\":{{\"user_name\":\"TestUser\"}}}}}}",
        subscribed_event_type()
    );
    match dispatch_frame(&InboundFrame::Text(text), subscribed_event_type()) {
        DispatchStep::Dispatch(ev) => {
            assert_eq!(ev.user_name, "TestUser");
            assert_eq!(ev.reward_title, "unknown reward");
        }
        _ => panic!("frame was not dispatched"),
    }
}

#[test]
fn test_malformed_frame_fails_loop() {
    let frame = InboundFrame::Text("{not json".to_string());
    assert!(matches!(
        dispatch_frame(&frame, subscribed_event_type()),
        DispatchStep::Fail
    ));
}

#[test]
fn test_non_text_frame_ignored() {
    assert!(matches!(
        dispatch_frame(&InboundFrame::NonText, subscribed_event_type()),
        DispatchStep::Ignore
    ));
}

#[test]
fn test_handshake_accepts_welcome() {
    let state = handshake_start();
    let welcome = InboundFrame::Text(
        r#"{"metadata":{"message_type":"session_welcome"},"payload":{"session":{"id":"TestSessionID123"}}}"#
            .to_string(),
    );
    match handshake_step(state, &Some(welcome)) {
        HandshakeStep::Accept(sid) => assert_eq!(sid, "TestSessionID123"),
        _ => panic!("welcome frame was not accepted"),
    }
}

#[test]
fn test_handshake_times_out_after_ten_polls() {
    let mut state = handshake_start();
    let mut polls: u32 = 0;
    loop {
        polls += 1;
        match handshake_step(state, &Some(InboundFrame::NonText)) {
            HandshakeStep::Accept(_) => panic!("nothing to accept"),
            HandshakeStep::Retry(next) => state = next,
            HandshakeStep::GiveUp => break,
        }
    }
    assert_eq!(polls, 10);
}
