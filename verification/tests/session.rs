use e_to_e_msgr::auth_commands::{bootstrap_credentials, register_credentials};
use e_to_e_msgr::manage_keys::{CredKind, CredentialMap};
use e_to_e_msgr::session_manager::{
    process_message, run_inbound, session_verdict, AuthPhase, DispatchError, DispatchOutcome,
    InboundEvent, InboundStep, LoopEnd, SessionSide, SessionState,
};

fn confirm_frame(token: &str, user: &str) -> String {
    format!(
        "{{\"type\":\"auth\",\"subtype\":\"confirm\",\"token\":\"{}\",\"user_id\":\"{}\"}}",
        token, user
    )
}

#[test]
fn token_rotation_updates_store() {
    // Bootstrap with alice / tok1 / 42 / uuid-abc, then receive a confirm
    // frame carrying tok2: the stored auth token for alice is now tok2.
    let mut creds = CredentialMap::new();
    let resp = "{\"token\":\"tok1\",\"device_id\":\"42\"}";
    let issued = bootstrap_credentials(resp).unwrap();
    assert_eq!(issued.token, "tok1");
    assert_eq!(issued.device_id, "42");
    register_credentials(&mut creds, "alice", &issued, "uuid-abc");
    assert_eq!(creds.get(CredKind::AuthToken, "alice").unwrap(), "tok1");
    assert_eq!(creds.get(CredKind::DeviceId, "alice").unwrap(), "42");
    assert_eq!(creds.get(CredKind::DeviceUuid, "alice").unwrap(), "uuid-abc");

    let mut state = SessionState { phase: AuthPhase::Connected, creds };
    let frame = confirm_frame("tok2", "alice");
    let out = process_message(&mut state, &frame);
    assert!(matches!(
        out,
        Ok(DispatchOutcome::TokenRotated { ref user_id, ref token })
            if user_id == "alice" && token == "tok2"
    ));
    assert_eq!(state.phase, AuthPhase::Authenticated);
    assert_eq!(state.creds.get(CredKind::AuthToken, "alice").unwrap(), "tok2");
}

#[test]
fn repeated_confirm_is_idempotent() {
    let mut state = SessionState { phase: AuthPhase::Connected, creds: CredentialMap::new() };
    let frame = confirm_frame("tokX", "alice");
    let first = process_message(&mut state, &frame);
    assert!(matches!(first, Ok(DispatchOutcome::TokenRotated { .. })));
    assert_eq!(state.creds.get(CredKind::AuthToken, "alice").unwrap(), "tokX");
    let second = process_message(&mut state, &frame);
    assert!(matches!(second, Ok(DispatchOutcome::TokenRotated { .. })));
    assert_eq!(state.creds.get(CredKind::AuthToken, "alice").unwrap(), "tokX");
    assert_eq!(state.phase, AuthPhase::Authenticated);
}

#[test]
fn missing_type_is_rejected_and_loop_continues() {
    // A frame without a "type" field is reported as malformed and the next
    // frame is still processed.
    let mut state = SessionState { phase: AuthPhase::Connected, creds: CredentialMap::new() };
    let events = vec![
        InboundEvent::Text("{\"no_type\":1}".to_string()),
        InboundEvent::Text(confirm_frame("tok9", "alice")),
    ];
    let steps = run_inbound(&mut state, &events);
    assert_eq!(steps.len(), 2);
    assert!(matches!(
        steps[0],
        InboundStep::Dispatched(Err(DispatchError::MalformedMessage))
    ));
    assert!(matches!(
        steps[1],
        InboundStep::Dispatched(Ok(DispatchOutcome::TokenRotated { .. }))
    ));
    assert_eq!(state.creds.get(CredKind::AuthToken, "alice").unwrap(), "tok9");
}

#[test]
fn unknown_type_then_logout_both_reported() {
    // An unknown ping frame is reported once; the following logout is still
    // processed.
    let mut state = SessionState { phase: AuthPhase::Connected, creds: CredentialMap::new() };
    let events = vec![
        InboundEvent::Text("{\"type\":\"ping\"}".to_string()),
        InboundEvent::Text("{\"type\":\"auth\",\"subtype\":\"logout\"}".to_string()),
    ];
    let steps = run_inbound(&mut state, &events);
    assert_eq!(steps.len(), 2);
    assert!(matches!(
        steps[0],
        InboundStep::Dispatched(Err(DispatchError::UnknownMessageType))
    ));
    assert!(matches!(
        steps[1],
        InboundStep::Dispatched(Ok(DispatchOutcome::LogoutNotice))
    ));
}

#[test]
fn unknown_auth_subtype_is_nonfatal() {
    let mut state = SessionState { phase: AuthPhase::Connected, creds: CredentialMap::new() };
    let out = process_message(&mut state, "{\"type\":\"auth\",\"subtype\":\"mystery\"}");
    assert!(matches!(out, Err(DispatchError::UnknownAuthSubtype)));
    assert_eq!(state.phase, AuthPhase::Connected);
}

#[test]
fn confirm_without_token_is_malformed() {
    let mut state = SessionState { phase: AuthPhase::Connected, creds: CredentialMap::new() };
    let out = process_message(
        &mut state,
        "{\"type\":\"auth\",\"subtype\":\"confirm\",\"user_id\":\"alice\"}",
    );
    assert!(matches!(out, Err(DispatchError::MalformedMessage)));
    let out = process_message(&mut state, "not json at all");
    assert!(matches!(out, Err(DispatchError::MalformedMessage)));
    // An auth frame without a subtype, and a frame that is JSON but no
    // object, are malformed too.
    let out = process_message(&mut state, "{\"type\":\"auth\"}");
    assert!(matches!(out, Err(DispatchError::MalformedMessage)));
    let out = process_message(&mut state, "\"just a string\"");
    assert!(matches!(out, Err(DispatchError::MalformedMessage)));
    assert_eq!(state.phase, AuthPhase::Connected);
}

#[test]
fn binary_frames_are_acknowledged_only() {
    let mut state = SessionState { phase: AuthPhase::Connected, creds: CredentialMap::new() };
    let events = vec![InboundEvent::Binary, InboundEvent::Binary];
    let steps = run_inbound(&mut state, &events);
    assert_eq!(steps.len(), 2);
    assert!(matches!(steps[0], InboundStep::BinaryAcknowledged));
    assert_eq!(state.phase, AuthPhase::Connected);
}

#[test]
fn read_error_terminates_inbound_loop() {
    let mut state = SessionState { phase: AuthPhase::Connected, creds: CredentialMap::new() };
    let events = vec![
        InboundEvent::Text("{\"type\":\"auth\",\"subtype\":\"logout\"}".to_string()),
        InboundEvent::ReadError("connection reset".to_string()),
        InboundEvent::Text(confirm_frame("late", "alice")),
    ];
    let steps = run_inbound(&mut state, &events);
    assert_eq!(steps.len(), 2);
    assert!(matches!(steps[1], InboundStep::Terminated(ref c) if c == "connection reset"));
    assert_eq!(state.phase, AuthPhase::Closed);
    // The frame after the read error was never dispatched.
    assert!(state.creds.get(CredKind::AuthToken, "alice").is_none());
}

#[test]
fn session_verdict_reports_failing_side() {
    let v = session_verdict(LoopEnd::Clean, LoopEnd::Clean);
    assert!(v.is_none());
    let v = session_verdict(LoopEnd::Failed("read failed".to_string()), LoopEnd::Clean);
    assert!(matches!(v, Some((SessionSide::Inbound, ref c)) if c == "read failed"));
    let v = session_verdict(LoopEnd::Clean, LoopEnd::Failed("write failed".to_string()));
    assert!(matches!(v, Some((SessionSide::Outbound, ref c)) if c == "write failed"));
    let v = session_verdict(
        LoopEnd::Failed("first".to_string()),
        LoopEnd::Failed("second".to_string()),
    );
    assert!(matches!(v, Some((SessionSide::Inbound, ref c)) if c == "first"));
}
