use soundbot::eventsub::{
    build_subscription_payload, evaluate_registration, resolve_broadcaster_id, ResolutionError,
};

#[test]
fn test_get_numeric_broadcaster_id_invalid() {
    let result = resolve_broadcaster_id(200, r#"{"data":[]}"#);
    assert!(result.is_err());
}

#[test]
fn test_resolution_not_found_on_empty_list() {
    match resolve_broadcaster_id(200, r#"{"data":[]}"#) {
        Err(ResolutionError::NotFound) => {}
        _ => panic!("an empty account list must resolve to NotFound"),
    }
}

#[test]
fn test_resolution_not_found_on_malformed_body() {
    assert!(matches!(
        resolve_broadcaster_id(200, "garbage"),
        Err(ResolutionError::NotFound)
    ));
}

#[test]
fn test_resolution_not_found_on_non_numeric_id() {
    assert!(matches!(
        resolve_broadcaster_id(200, r#"{"data":[{"id":"abc"}]}"#),
        Err(ResolutionError::NotFound)
    ));
}

#[test]
fn test_resolution_upstream_error_names_status() {
    match resolve_broadcaster_id(401, r#"{"data":[{"id":"12345"}]}"#) {
        Err(e @ ResolutionError::UpstreamError(status)) => {
            assert_eq!(status, 401);
            assert_eq!(e.message(), "Failed to fetch broadcaster id: 401");
        }
        _ => panic!("a non-success status must be an upstream error"),
    }
}

#[test]
fn test_resolution_success() {
    let body = r#"{"data":[{"id":"141981764","login":"somebody"},{"id":"99"}]}"#;
    assert_eq!(resolve_broadcaster_id(200, body), Ok("141981764".to_string()));
}

#[test]
fn test_registration_accepted_on_success_status() {
    assert!(evaluate_registration(200, "").is_ok());
    assert!(evaluate_registration(204, "whatever").is_ok());
}

#[test]
fn test_registration_rejected_carries_body() {
    match evaluate_registration(400, "invalid condition") {
        Err(e) => {
            assert_eq!(e.body, "invalid condition");
            let message = e.message();
            assert_eq!(message, "Failed to register subscription: invalid condition");
            assert!(message.contains("invalid condition"));
        }
        Ok(()) => panic!("a rejected status must be an error"),
    }
}

#[test]
fn test_subscription_payload_exact_text() {
    let payload = build_subscription_payload("141981764", "AgoodSessionId");
    assert_eq!(
        payload,
        "{\"type\":\"channel.channel_points_custom_reward_redemption.add\",\
         \"version\":\"1\",\"condition\":{\"broadcaster_user_id\":\"141981764\"},\
         \"transport\":{\"method\":\"websocket\",\"session_id\":\"AgoodSessionId\"}}"
    );
}

#[test]
fn test_subscription_payload_is_valid_json() {
    let payload = build_subscription_payload("123", "odd\"session\\id");
    let parsed: serde_json::Value = serde_json::from_str(&payload).unwrap();
    assert_eq!(parsed["type"], "channel.channel_points_custom_reward_redemption.add");
    assert_eq!(parsed["version"], "1");
    assert_eq!(parsed["condition"]["broadcaster_user_id"], "123");
    assert_eq!(parsed["transport"]["method"], "websocket");
    assert_eq!(parsed["transport"]["session_id"], "odd\"session\\id");
}
