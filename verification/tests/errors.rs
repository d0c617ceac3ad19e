use turntf::errors::{ClosedError, Error, ServerError};

#[test]
fn server_error_text_and_unauthorized() {
    let e = ServerError::new("unauthorized", "bad token", 0);
    assert!(e.unauthorized());
    assert_eq!(e.describe(), "turntf server error: unauthorized (bad token)");
    let e = ServerError::new("not_found", "missing", 42);
    assert!(!e.unauthorized());
    assert_eq!(e.describe(), "turntf server error: not_found (missing), request_id=42");
}

#[test]
fn error_texts() {
    assert_eq!(Error::validation("body is required").describe(), "body is required");
    assert_eq!(Error::Closed(ClosedError).describe(), "turntf client is closed");
    assert_eq!(Error::protocol("x").describe(), "turntf protocol error: x");
    assert_eq!(Error::connection("dial", "refused").describe(), "turntf connection error during dial: refused");
    assert_eq!(Error::store("save_cursor", "disk full").describe(), "turntf store error during save_cursor: disk full");
}
