use turntf::dispatch::RpcValue;
use turntf::errors::Error;
use turntf::password::hashed_password;
use turntf::requests::{
    channel_request, create_user_request, get_user_metadata_request, list_attachments_request, reply_user, scan_user_metadata_request,
    send_message_request, send_packet_request, update_user_request, upsert_user_metadata_request,
    with_request_id,
};
use turntf::types::{
    AttachmentType, CreateUserRequest, DeliveryMode, ScanUserMetadataRequest, SessionRef,
    UpdateUserRequest, UpsertUserMetadataRequest, User, UserRef,
};
use turntf::wire;

fn validation_message(e: Error) -> String {
    match e {
        Error::Validation(v) => v.message,
        other => panic!("expected a validation error, got {other:?}"),
    }
}

const TARGET: UserRef = UserRef { node_id: 4096, user_id: 1025 };

#[test]
fn send_message_body() {
    let b = with_request_id(send_message_request(&TARGET, b"payload".to_vec()).unwrap(), 7);
    match b {
        wire::ClientBody::SendMessage(r) => {
            assert_eq!(r.request_id, 7);
            assert_eq!(r.target, Some(wire::UserRef { node_id: 4096, user_id: 1025 }));
            assert_eq!(r.body, b"payload".to_vec());
            assert_eq!(r.delivery_kind, 0);
        }
        other => panic!("unexpected {other:?}"),
    }
    assert_eq!(validation_message(send_message_request(&TARGET, Vec::new()).unwrap_err()), "body is required");
}

#[test]
fn transient_packet_body() {
    let s = SessionRef { serving_node_id: 2, session_id: "target-session".to_string() };
    let b = send_packet_request(&TARGET, b"pkt".to_vec(), DeliveryMode::RouteRetry, Some(s)).unwrap();
    match b {
        wire::ClientBody::SendMessage(r) => {
            assert_eq!(r.delivery_kind, 2);
            assert_eq!(r.delivery_mode, 2);
            assert_eq!(r.target_session.unwrap().session_id, "target-session");
        }
        other => panic!("unexpected {other:?}"),
    }
    let e = send_packet_request(&TARGET, b"x".to_vec(), DeliveryMode::Unspecified, None).unwrap_err();
    assert_eq!(validation_message(e), "invalid delivery_mode \"\"");
    let bad = SessionRef { serving_node_id: 2, session_id: String::new() };
    let e = send_packet_request(&TARGET, b"x".to_vec(), DeliveryMode::BestEffort, Some(bad)).unwrap_err();
    assert_eq!(validation_message(e), "target_session.session_id is required");
}

#[test]
fn create_user_rules() {
    let req = CreateUserRequest {
        username: "alice".to_string(),
        login_name: Some("  alice.login ".to_string()),
        password: Some(hashed_password("$2b$12$x")),
        profile_json: b"{}".to_vec(),
        role: "user".to_string(),
    };
    match create_user_request(req).unwrap() {
        wire::ClientBody::CreateUser(c) => {
            assert_eq!(c.login_name, "alice.login");
            assert_eq!(c.password, "$2b$12$x");
        }
        other => panic!("unexpected {other:?}"),
    }
    let channel = channel_request(CreateUserRequest {
        username: "news".to_string(),
        login_name: Some("news".to_string()),
        ..Default::default()
    });
    assert_eq!(channel.role, "channel");
    let e = create_user_request(channel).unwrap_err();
    assert_eq!(validation_message(e), "login_name requires a login-enabled user");
    let e = create_user_request(CreateUserRequest { role: "user".to_string(), ..Default::default() }).unwrap_err();
    assert_eq!(validation_message(e), "username is required");
}

#[test]
fn update_user_rules() {
    let req = UpdateUserRequest {
        username: Some("alice-2".to_string()),
        login_name: Some(" ".to_string()),
        role: Some(" channel ".to_string()),
        ..Default::default()
    };
    match update_user_request(&TARGET, req).unwrap() {
        wire::ClientBody::UpdateUser(u) => {
            assert_eq!(u.login_name, Some(wire::StringField { value: String::new() }));
            assert_eq!(u.username, Some(wire::StringField { value: "alice-2".to_string() }));
            assert!(u.password.is_none());
        }
        other => panic!("unexpected {other:?}"),
    }
    let req = UpdateUserRequest {
        login_name: Some("x".to_string()),
        role: Some("channel".to_string()),
        ..Default::default()
    };
    assert_eq!(validation_message(update_user_request(&TARGET, req).unwrap_err()), "login_name requires a login-enabled user");
}

#[test]
fn metadata_requests_check_key_and_scan() {
    let e = upsert_user_metadata_request(&TARGET, "bad/key".to_string(), UpsertUserMetadataRequest::default())
        .unwrap_err();
    assert_eq!(validation_message(e), "key contains unsupported character '/'");
    let e = scan_user_metadata_request(
        &TARGET,
        ScanUserMetadataRequest { prefix: "bad/prefix".to_string(), after: String::new(), limit: 1 },
    )
    .unwrap_err();
    assert_eq!(validation_message(e), "prefix contains unsupported character '/'");
    let ok = scan_user_metadata_request(
        &TARGET,
        ScanUserMetadataRequest { prefix: "session:".to_string(), after: "session:web:0".to_string(), limit: 10 },
    )
    .unwrap();
    assert!(matches!(ok, wire::ClientBody::ScanUserMetadata(ref s) if s.limit == 10 && s.prefix == "session:"));
}

#[test]
fn attachment_listing_uses_type_zero_for_all() {
    let all = list_attachments_request(&TARGET, None).unwrap();
    assert!(matches!(all, wire::ClientBody::ListUserAttachments { attachment_type: 0, .. }));
    let subs = list_attachments_request(&TARGET, Some(AttachmentType::ChannelSubscription)).unwrap();
    assert!(matches!(subs, wire::ClientBody::ListUserAttachments { attachment_type: 3, .. }));
}

#[test]
fn replies_of_the_wrong_kind() {
    let u = reply_user(Ok(RpcValue::User(User { username: "a".to_string(), ..Default::default() })), "missing user").unwrap();
    assert_eq!(u.username, "a");
    let e = reply_user(Ok(RpcValue::Unit), "missing user in get_user_response").unwrap_err();
    assert!(matches!(e, Error::Protocol(ref p) if p.protocol_message == "missing user in get_user_response"));
}

#[test]
fn client_user_metadata_validates_inputs_before_rpc() {
    let owner = UserRef { node_id: 4096, user_id: 1025 };
    let error = get_user_metadata_request(&owner, "bad/key".to_string()).unwrap_err();
    assert!(matches!(error, Error::Validation(_)));
    let scan = ScanUserMetadataRequest { prefix: "bad/prefix".into(), after: String::new(), limit: 1 };
    let error = scan_user_metadata_request(&owner, scan).unwrap_err();
    assert!(matches!(error, Error::Validation(_)));
    let scan = ScanUserMetadataRequest { prefix: String::new(), after: String::new(), limit: -1 };
    let error = scan_user_metadata_request(&owner, scan).unwrap_err();
    assert!(matches!(error, Error::Validation(_)));
}
