use light_factory_tui::api::{
    decode_error, network_error, poll_again, poll_interval, status_error, ApiError, DeviceGrant,
};

#[test]
fn an_error_reads_as_code_then_message() {
    let e = ApiError { code: "invalid_grant".into(), message: "bad code".into() };
    assert_eq!(e.display_text(), "invalid_grant: bad code");
}

#[test]
fn every_failure_has_a_stable_code() {
    let e = network_error("connection refused");
    assert_eq!(e.code, "network");
    assert_eq!(e.message, "could not reach the server: connection refused");
    let e = decode_error("missing field `token`");
    assert_eq!(e.code, "decode");
    assert_eq!(e.message, "unexpected response: missing field `token`");
    let e = status_error("502 Bad Gateway", None);
    assert_eq!((e.code.as_str(), e.message.as_str()), ("unknown", "502 Bad Gateway"));
    let body = ApiError { code: "email_taken".into(), message: "taken".into() };
    assert_eq!(status_error("409 Conflict", Some(body.clone())), body);
}

#[test]
fn only_a_pending_authorization_keeps_polling() {
    let pending: Result<(), ApiError> =
        Err(ApiError { code: "authorization_pending".into(), message: String::new() });
    assert!(poll_again(&pending));
    let denied: Result<(), ApiError> =
        Err(ApiError { code: "access_denied".into(), message: String::new() });
    assert!(!poll_again(&denied));
    assert!(!poll_again(&Ok::<(), ApiError>(())));
}

#[test]
fn polling_is_never_faster_than_a_second() {
    let mut grant = DeviceGrant {
        device_code: "d".into(),
        user_code: "u".into(),
        verification_uri: "v".into(),
        verification_uri_complete: "c".into(),
        interval: 0,
    };
    assert_eq!(poll_interval(&grant), 1);
    grant.interval = 5;
    assert_eq!(poll_interval(&grant), 5);
}
