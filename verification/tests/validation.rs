use turntf::errors::Error;
use turntf::types::{DeliveryMode, SessionRef, UserRef};
use turntf::validation::{
    normalize_login_name, normalize_optional_filter, validate_delivery_mode, validate_login_name,
    validate_optional_user_metadata_key_fragment, validate_optional_user_ref, validate_positive_i64,
    validate_session_ref, validate_user_metadata_key, validate_user_metadata_scan_limit,
    validate_user_ref,
};

fn validation_message(e: Error) -> String {
    match e {
        Error::Validation(v) => v.message,
        other => panic!("expected a validation error, got {other:?}"),
    }
}

#[test]
fn positive_ids_are_required() {
    assert!(validate_positive_i64(1, "node_id").is_ok());
    assert_eq!(validation_message(validate_positive_i64(0, "node_id").unwrap_err()), "node_id is required");
    assert_eq!(validation_message(validate_positive_i64(-5, "user_id").unwrap_err()), "user_id is required");
}

#[test]
fn user_ref_reports_first_bad_part() {
    assert!(validate_user_ref(&UserRef { node_id: 4096, user_id: 1025 }, "target").is_ok());
    let e = validate_user_ref(&UserRef { node_id: 0, user_id: 0 }, "target").unwrap_err();
    assert_eq!(validation_message(e), "target.node_id is required");
    let e = validate_user_ref(&UserRef { node_id: 1, user_id: -1 }, "owner").unwrap_err();
    assert_eq!(validation_message(e), "owner.user_id is required");
}

#[test]
fn optional_user_ref_accepts_unset() {
    assert_eq!(validate_optional_user_ref(&UserRef { node_id: 0, user_id: 0 }, "request.uid").unwrap(), false);
    assert_eq!(validate_optional_user_ref(&UserRef { node_id: 3, user_id: 4 }, "request.uid").unwrap(), true);
    let e = validate_optional_user_ref(&UserRef { node_id: 3, user_id: 0 }, "request.uid").unwrap_err();
    assert_eq!(validation_message(e), "request.uid.user_id is required");
}

#[test]
fn login_names_are_trimmed_and_required() {
    assert_eq!(normalize_login_name("  alice.login \t"), "alice.login");
    assert!(validate_login_name(" bob ", "login_name").is_ok());
    let e = validate_login_name(" \u{3000} ", "login_name").unwrap_err();
    assert_eq!(validation_message(e), "login_name is required");
}

#[test]
fn optional_filter_drops_blank_text() {
    assert_eq!(normalize_optional_filter("   "), None);
    assert_eq!(normalize_optional_filter(" ali "), Some("ali".to_string()));
}

#[test]
fn session_ref_needs_node_and_session() {
    let ok = SessionRef { serving_node_id: 2, session_id: "s-1".to_string() };
    assert!(validate_session_ref(&ok, "target_session").is_ok());
    let e = validate_session_ref(&SessionRef { serving_node_id: 0, session_id: "x".to_string() }, "target_session").unwrap_err();
    assert_eq!(validation_message(e), "target_session.serving_node_id is required");
    let e = validate_session_ref(&SessionRef { serving_node_id: 2, session_id: "  ".to_string() }, "target_session").unwrap_err();
    assert_eq!(validation_message(e), "target_session.session_id is required");
}

#[test]
fn packets_need_a_delivery_mode() {
    assert!(validate_delivery_mode(DeliveryMode::BestEffort).is_ok());
    assert!(validate_delivery_mode(DeliveryMode::RouteRetry).is_ok());
    let e = validate_delivery_mode(DeliveryMode::Unspecified).unwrap_err();
    assert_eq!(validation_message(e), "invalid delivery_mode \"\"");
}

#[test]
fn metadata_keys_are_checked() {
    assert!(validate_user_metadata_key("session:web:1", "key").is_ok());
    let e = validate_user_metadata_key("", "key").unwrap_err();
    assert_eq!(validation_message(e), "key cannot be empty");
    let e = validate_user_metadata_key("bad/key", "key").unwrap_err();
    assert_eq!(validation_message(e), "key contains unsupported character '/'");
    let long = "a".repeat(129);
    let e = validate_user_metadata_key(&long, "key").unwrap_err();
    assert_eq!(validation_message(e), "key exceeds 128 characters");
    assert!(validate_user_metadata_key(&"a".repeat(128), "key").is_ok());
}

#[test]
fn metadata_key_length_counts_bytes() {
    // 65 two-byte characters are 130 bytes.
    let wide = "é".repeat(65);
    let e = validate_user_metadata_key(&wide, "key").unwrap_err();
    assert_eq!(validation_message(e), "key exceeds 128 characters");
}

#[test]
fn optional_fragments_may_be_empty() {
    assert!(validate_optional_user_metadata_key_fragment("", "prefix").is_ok());
    let e = validate_optional_user_metadata_key_fragment("bad/prefix", "prefix").unwrap_err();
    assert_eq!(validation_message(e), "prefix contains unsupported character '/'");
}

#[test]
fn scan_limit_bounds() {
    assert!(validate_user_metadata_scan_limit(0).is_ok());
    assert!(validate_user_metadata_scan_limit(1000).is_ok());
    assert_eq!(validation_message(validate_user_metadata_scan_limit(-1).unwrap_err()), "limit must be positive");
    assert_eq!(validation_message(validate_user_metadata_scan_limit(1001).unwrap_err()), "limit cannot exceed 1000");
}
