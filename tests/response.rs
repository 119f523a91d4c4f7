use life::{Error, TokenResp};

#[test]
fn error_messages() {
    assert_eq!(Error::Create.message(), "failed to initialize token");
    assert_eq!(Error::InvalidToken.message(), "invalid token");
    assert_eq!(Error::Codec("bad signature".to_string()).message(), "bad signature");
    assert_eq!(Error::LineageNotFound.message(), "lineage not found");
    assert_eq!(Error::Store("connection refused".to_string()).message(), "connection refused");
    assert_eq!(Error::RevocationFailed.message(), "invalid token; revocation failed");
}

#[test]
fn token_resp_ok_carries_token_only() {
    let r = TokenResp::ok("abc".to_string());
    assert!(r.is_valid);
    assert_eq!(r.token, Some("abc".to_string()));
    assert_eq!(r.err, None);
}

#[test]
fn token_resp_err_carries_message_only() {
    let r = TokenResp::err(&Error::InvalidToken);
    assert!(!r.is_valid);
    assert_eq!(r.token, None);
    assert_eq!(r.err, Some("invalid token".to_string()));
}
