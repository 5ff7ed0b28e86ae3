use soundbot::eventsub::{
    service_start, service_step, subscribed_event_type, HandshakeError, InboundFrame,
    RegistrationError, ResolutionError, ServiceAction, ServiceEvent, ServicePhase,
};

#[test]
fn test_service_happy_path_to_dispatch() {
    let (state, action) = service_start();
    assert!(matches!(action, ServiceAction::Resolve));

    let (state, action) = service_step(state, ServiceEvent::Resolved(Ok("141981764".to_string())));
    assert!(matches!(action, ServiceAction::Handshake));

    let (state, action) = service_step(state, ServiceEvent::Welcome(Ok("Session9".to_string())));
    match &action {
        ServiceAction::Register(payload) => {
            assert!(payload.contains("\"broadcaster_user_id\":\"141981764\""));
            assert!(payload.contains("\"session_id\":\"Session9\""));
        }
        _ => panic!("a welcome must lead to registration"),
    }

    let (state, action) = service_step(state, ServiceEvent::Registered(Ok(())));
    assert!(matches!(action, ServiceAction::Read));

    let frame_text = format!(
        "{{\"payload\":{{\"subscription\":{{\"type\":\"{}\"}},\"event\":{{\"user_name\":\"TestUser\",\"reward\":{{\"title\":\"CoolSound\"}}}}}}}}",
        subscribed_event_type()
    );
    let (state, action) = service_step(state, ServiceEvent::Frame(InboundFrame::Text(frame_text)));
    match action {
        ServiceAction::Dispatch(ev) => {
            assert_eq!(ev.user_name, "TestUser");
            assert_eq!(ev.reward_title, "CoolSound");
        }
        _ => panic!("an eligible frame must be dispatched"),
    }

    let (state, action) = service_step(state, ServiceEvent::StreamEnded);
    assert!(matches!(action, ServiceAction::Stop));
    assert!(matches!(state.phase, ServicePhase::Ended));
}

#[test]
fn test_service_stops_on_resolution_failure() {
    let (state, _) = service_start();
    let (state, action) = service_step(
        state,
        ServiceEvent::Resolved(Err(ResolutionError::NotFound)),
    );
    assert!(matches!(action, ServiceAction::Stop));
    assert!(matches!(state.phase, ServicePhase::Failed));
}

#[test]
fn test_service_stops_on_handshake_timeout() {
    let (state, _) = service_start();
    let (state, _) = service_step(state, ServiceEvent::Resolved(Ok("1".to_string())));
    let (state, action) = service_step(
        state,
        ServiceEvent::Welcome(Err(HandshakeError::HandshakeTimeout)),
    );
    assert!(matches!(action, ServiceAction::Stop));
    assert!(matches!(state.phase, ServicePhase::Failed));
}

#[test]
fn test_service_stops_on_rejected_registration() {
    let (state, _) = service_start();
    let (state, _) = service_step(state, ServiceEvent::Resolved(Ok("1".to_string())));
    let (state, _) = service_step(state, ServiceEvent::Welcome(Ok("S".to_string())));
    let (state, action) = service_step(
        state,
        ServiceEvent::Registered(Err(RegistrationError { body: "invalid condition".to_string() })),
    );
    assert!(matches!(action, ServiceAction::Stop));
    assert!(matches!(state.phase, ServicePhase::Failed));
}

#[test]
fn test_service_ignores_mismatched_frame_and_reads_on() {
    let (state, _) = service_start();
    let (state, _) = service_step(state, ServiceEvent::Resolved(Ok("1".to_string())));
    let (state, _) = service_step(state, ServiceEvent::Welcome(Ok("S".to_string())));
    let (state, _) = service_step(state, ServiceEvent::Registered(Ok(())));
    let text = "{\"payload\":{\"subscription\":{\"type\":\"channel.follow\"},\"event\":{\"user_name\":\"x\"}}}";
    let (state, action) = service_step(
        state,
        ServiceEvent::Frame(InboundFrame::Text(text.to_string())),
    );
    assert!(matches!(action, ServiceAction::Read));
    assert!(matches!(state.phase, ServicePhase::Dispatching));
    let (state, action) = service_step(
        state,
        ServiceEvent::Frame(InboundFrame::Text("broken{".to_string())),
    );
    assert!(matches!(action, ServiceAction::Stop));
    assert!(matches!(state.phase, ServicePhase::Failed));
}
