use e_to_e_msgr::auth_commands::{bootstrap_credentials, user_known, BootstrapError};
use e_to_e_msgr::establish_websocket::{
    check_header_value, upgrade_headers, websocket_url, AuthHeaderError,
};
use e_to_e_msgr::json_structures::parse_devices;

#[test]
fn upgrade_headers_carry_all_four_identities() {
    let hs = upgrade_headers("alice", "tok1", "42", "uuid-abc").unwrap();
    assert_eq!(hs.len(), 4);
    assert_eq!(hs[0].name, "x-user-id");
    assert_eq!(hs[0].value, "alice");
    assert_eq!(hs[1].name, "x-auth-token");
    assert_eq!(hs[1].value, "tok1");
    assert_eq!(hs[2].name, "x-device-id");
    assert_eq!(hs[2].value, "42");
    assert_eq!(hs[3].name, "x-device-uuid");
    assert_eq!(hs[3].value, "uuid-abc");
}

#[test]
fn malformed_credential_fails_fast() {
    let r = upgrade_headers("alice", "bad\ntoken", "42", "uuid-abc");
    assert!(matches!(r, Err(AuthHeaderError::InvalidToken)));
    let r = upgrade_headers("bad\u{7f}user", "tok", "42", "uuid-abc");
    assert!(matches!(r, Err(AuthHeaderError::InvalidUserId)));
    let r = upgrade_headers("", "tok", "42", "uuid-abc");
    assert!(matches!(r, Err(AuthHeaderError::InvalidUserId)));
    let r = upgrade_headers("alice", "tok", "4\u{0}2", "uuid-abc");
    assert!(matches!(r, Err(AuthHeaderError::InvalidDeviceId)));
    let r = upgrade_headers("alice", "tok", "42", "uuid\rabc");
    assert!(matches!(r, Err(AuthHeaderError::InvalidDeviceUuid)));
}

#[test]
fn header_values_allow_tab_and_unicode() {
    assert!(check_header_value("plain value"));
    assert!(check_header_value("with\ttab"));
    assert!(check_header_value("naïve café ☕"));
    assert!(!check_header_value("with\nnewline"));
    assert!(!check_header_value("\u{7f}"));
}

#[test]
fn websocket_url_is_fixed() {
    assert_eq!(websocket_url(), "ws://localhost:3000/ws");
}

#[test]
fn bootstrap_answer_needs_both_fields() {
    let ok = bootstrap_credentials("{\"token\":\"t1\",\"device_id\":\"7\"}").unwrap();
    assert_eq!(ok.token, "t1");
    assert_eq!(ok.device_id, "7");
    let r = bootstrap_credentials("{\"device_id\":\"7\"}");
    assert!(matches!(r, Err(BootstrapError::MissingToken)));
    let r = bootstrap_credentials("{\"token\":\"t1\"}");
    assert!(matches!(r, Err(BootstrapError::MissingDeviceId)));
    let r = bootstrap_credentials("{\"token\":17,\"device_id\":\"7\"}");
    assert!(matches!(r, Err(BootstrapError::MissingToken)));
    let r = bootstrap_credentials("no json");
    assert!(matches!(r, Err(BootstrapError::MissingToken)));
}

#[test]
fn user_known_checks_membership() {
    let records = vec!["alice".to_string(), "bob".to_string()];
    assert!(user_known(&records, "alice"));
    assert!(user_known(&records, "bob"));
    assert!(!user_known(&records, "carol"));
    assert!(!user_known(&Vec::new(), "alice"));
}

#[test]
fn devices_frame_parses_or_is_rejected() {
    let d = parse_devices(
        "{\"user_id\":\"test\",\"devices\":[1,2,3],\"timestamp\":\"2024-01-01\"}",
    )
    .unwrap();
    assert_eq!(d.user_id, "test");
    assert_eq!(d.devices, vec![1, 2, 3]);
    assert_eq!(d.timestamp, "2024-01-01");
    assert!(parse_devices("{\"user_id\":\"test\",\"devices\":[1,\"x\"],\"timestamp\":\"t\"}")
        .is_none());
    assert!(parse_devices("{\"user_id\":\"test\",\"timestamp\":\"t\"}").is_none());
    assert!(parse_devices("{}").is_none());
}
