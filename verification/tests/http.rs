use turntf::errors::Error;
use turntf::http::{
    create_user_request, update_user_request, json_response, list_events_request, list_messages_request, list_users_request,
    get_user_metadata_request, get_user_request, list_node_logged_in_users_request, login_token,
    login_with_password_request, post_message_request, post_packet_request, read_response,
    response_status_code, scan_user_metadata_request, upsert_attachment_request, user_response,
    users_response, BodyValue, HttpClient, HttpMethod,
};
use turntf::http_mapping::{
    attachment_from_http, message_from_http, user_metadata_from_http, user_metadata_scan_result_from_http,
};
use turntf::json::{parse_i64, parse_u64, JsonMember, JsonNumber, JsonValue};
use turntf::password::{hashed_password, plain_password};
use turntf::types::{AttachmentType, CreateUserRequest, UpdateUserRequest, DeliveryMode, ListUsersRequest, ScanUserMetadataRequest, UserRef};

fn text(s: &str) -> JsonValue {
    JsonValue::String(s.to_string())
}

fn num(n: i64) -> JsonValue {
    JsonValue::Number(JsonNumber {
        text: n.to_string(),
        as_i64: Some(n),
        as_u64: if n >= 0 { Some(n as u64) } else { None },
    })
}

fn obj(members: Vec<(&str, JsonValue, &str)>) -> Vec<JsonMember> {
    members
        .into_iter()
        .map(|(k, v, enc)| JsonMember { key: k.to_string(), value: v, encoded: enc.as_bytes().to_vec() })
        .collect()
}

fn validation_message(e: Error) -> String {
    match e {
        Error::Validation(v) => v.message,
        other => panic!("expected a validation error, got {other:?}"),
    }
}

fn protocol_message(e: Error) -> String {
    match e {
        Error::Protocol(p) => p.protocol_message,
        other => panic!("expected a protocol error, got {other:?}"),
    }
}

#[test]
fn status_codes() {
    assert_eq!(response_status_code(401), "unauthorized");
    assert_eq!(response_status_code(422), "unprocessable_entity");
    assert_eq!(response_status_code(503), "service_unavailable");
    assert_eq!(response_status_code(418), "http_error");
}

#[test]
fn refused_requests_become_server_errors() {
    let ok = vec![200u16];
    assert_eq!(read_response(200, "body".to_string(), &ok, None).unwrap(), "body");
    let parsed = JsonValue::Object(obj(vec![
        ("code", text("unauthorized"), "\"unauthorized\""),
        ("message", text("bad token"), "\"bad token\""),
    ]));
    match read_response(401, "{...}".to_string(), &ok, Some(parsed)) {
        Err(Error::Server(e)) => {
            assert_eq!(e.code, "unauthorized");
            assert_eq!(e.server_message, "bad token");
            assert_eq!(e.request_id, 0);
        }
        other => panic!("unexpected {other:?}"),
    }
    match read_response(404, "  not here \n".to_string(), &ok, None) {
        Err(Error::Server(e)) => {
            assert_eq!(e.code, "not_found");
            assert_eq!(e.server_message, "not here");
        }
        other => panic!("unexpected {other:?}"),
    }
}

#[test]
fn json_answers() {
    assert!(matches!(json_response("   ", Err("eof".to_string())).unwrap(), JsonValue::Null));
    let e = json_response("{", Err("EOF while parsing".to_string())).unwrap_err();
    assert_eq!(protocol_message(e), "invalid JSON response: EOF while parsing");
    let token = JsonValue::Object(obj(vec![("token", text("admin-token"), "\"admin-token\"")]));
    assert_eq!(login_token(&token).unwrap(), "admin-token");
    let empty = JsonValue::Object(obj(vec![("token", text(""), "\"\"")]));
    assert_eq!(protocol_message(login_token(&empty).unwrap_err()), "empty token in login response");
}

#[test]
fn base_url_is_trimmed() {
    let c = HttpClient::new("http://localhost:8080///").unwrap();
    assert_eq!(c.base_url(), "http://localhost:8080");
    assert_eq!(c.url("/users"), "http://localhost:8080/users");
    assert_eq!(validation_message(HttpClient::new(" /").unwrap_err()), "base_url is required");
}

#[test]
fn login_body() {
    let r = login_with_password_request(4096, 1, &hashed_password("hash")).unwrap();
    assert_eq!(r.method, HttpMethod::Post);
    assert_eq!(r.path, "/auth/login");
    assert_eq!(r.token, "");
    assert_eq!(r.statuses, vec![200]);
    let body = r.body.unwrap();
    assert_eq!(body.len(), 3);
    assert!(matches!(body[0], (ref k, BodyValue::Int(4096)) if k == "node_id"));
    assert_eq!(validation_message(login_with_password_request(0, 1, &hashed_password("h")).unwrap_err()), "node_id is required");
}

#[test]
fn create_user_body_checks_profile_json() {
    let req = CreateUserRequest {
        username: "alice".to_string(),
        login_name: Some("alice.login".to_string()),
        password: Some(hashed_password("h")),
        profile_json: br#"{"tier":"gold"}"#.to_vec(),
        role: "user".to_string(),
    };
    let r = create_user_request("admin-token", req).unwrap();
    assert_eq!(r.path, "/users");
    assert_eq!(r.statuses, vec![200, 201]);
    let keys: Vec<String> = r.body.unwrap().into_iter().map(|(k, _)| k).collect();
    assert_eq!(keys, vec!["username", "role", "login_name", "password", "profile"]);
    let bad = CreateUserRequest {
        username: "a".to_string(),
        role: "user".to_string(),
        profile_json: b"{oops".to_vec(),
        ..Default::default()
    };
    let e = validation_message(create_user_request("t", bad).unwrap_err());
    assert!(e.starts_with("profile_json must be valid JSON: "), "{e}");
}

#[test]
fn list_users_query() {
    let r = list_users_request("t", &ListUsersRequest::default()).unwrap();
    assert_eq!(r.path, "/users");
    let r = list_users_request("t", &ListUsersRequest { name: " al ice ".to_string(), uid: UserRef { node_id: 0, user_id: 0 } }).unwrap();
    assert_eq!(r.path, "/users?name=al+ice");
    let r = list_users_request("t", &ListUsersRequest { name: String::new(), uid: UserRef { node_id: 4096, user_id: 7 } }).unwrap();
    assert_eq!(r.path, "/users?uid=4096%3A7");
    let e = list_users_request("t", &ListUsersRequest { name: String::new(), uid: UserRef { node_id: 4096, user_id: 0 } }).unwrap_err();
    assert_eq!(validation_message(e), "request.uid.user_id is required");
}

#[test]
fn paths_and_queries() {
    let owner = UserRef { node_id: 4096, user_id: 1025 };
    let r = scan_user_metadata_request(
        "t",
        &owner,
        &ScanUserMetadataRequest { prefix: "session:".to_string(), after: String::new(), limit: 10 },
    )
    .unwrap();
    assert_eq!(r.path, "/nodes/4096/users/1025/metadata?prefix=session:&limit=10");
    let r = list_messages_request("t", &owner, 10, Some(1), Some(2)).unwrap();
    assert_eq!(r.path, "/nodes/4096/users/1025/messages?limit=10&peer_node_id=1&peer_user_id=2");
    let r = list_messages_request("t", &UserRef { node_id: 0, user_id: 0 }, 0, Some(1), Some(2)).unwrap();
    assert_eq!(r.path, "/nodes/0/users/0/messages?peer_node_id=1&peer_user_id=2");
    let e = list_messages_request("t", &UserRef { node_id: -1, user_id: 0 }, 0, None, None).unwrap_err();
    assert_eq!(validation_message(e), "target.node_id must not be negative");
    assert_eq!(list_events_request("t", 5, 0).path, "/events?after=5");
    assert_eq!(list_events_request("t", 0, 0).path, "/events");
    let r = upsert_attachment_request("t", &owner, &UserRef { node_id: 4096, user_id: 2025 }, AttachmentType::ChannelSubscription, Vec::new()).unwrap();
    assert_eq!(r.path, "/nodes/4096/users/1025/attachments/channel_subscription/4096/2025");
    assert!(matches!(r.body.unwrap()[0].1, BodyValue::EmptyObject));
}

#[test]
fn bodies_are_base64() {
    let target = UserRef { node_id: 4096, user_id: 1025 };
    let r = post_message_request("t", &target, &b"hi".to_vec()).unwrap();
    assert!(matches!(r.body.unwrap()[0], (_, BodyValue::Text(ref s)) if s == "aGk="));
    let r = post_packet_request("t", 4096, &target, &vec![0xff, 0x00], DeliveryMode::BestEffort).unwrap();
    assert_eq!(r.statuses, vec![202]);
    let body = r.body.unwrap();
    assert!(matches!(body[0], (_, BodyValue::Text(ref s)) if s == "/wA="));
    assert!(matches!(body[2], (_, BodyValue::Text(ref s)) if s == "best_effort"));
    let e = post_packet_request("t", 4097, &target, &b"x".to_vec(), DeliveryMode::BestEffort).unwrap_err();
    assert_eq!(validation_message(e), "target node ID 4097 does not match target user node_id 4096");
}

#[test]
fn reading_users_leniently() {
    let user = JsonValue::Object(obj(vec![
        ("id", text("1025"), "\"1025\""),
        ("node_id", num(4096), "4096"),
        ("username", text("alice"), "\"alice\""),
        ("profile_json", JsonValue::Object(obj(vec![("tier", text("gold"), "\"gold\"")])), r#"{"tier":"gold"}"#),
        ("system_reserved", JsonValue::Bool(true), "true"),
    ]));
    let u = user_response(&user).unwrap();
    assert_eq!(u.user_id, 1025);
    assert_eq!(u.node_id, 4096);
    assert_eq!(u.profile_json, br#"{"tier":"gold"}"#.to_vec());
    assert!(u.system_reserved);
    assert_eq!(u.role, "");
    let list = JsonValue::Object(obj(vec![("items", JsonValue::Array(vec![user, text("oops")]), "[]")]));
    assert_eq!(protocol_message(users_response(&list).unwrap_err()), "unexpected JSON object");
    assert_eq!(protocol_message(users_response(&JsonValue::Object(Vec::new())).unwrap_err()), "missing items in list response");
}

#[test]
fn reading_bytes_and_types() {
    let m = obj(vec![("body", text("/wA="), "\"/wA=\""), ("created_at", text("hlc1"), "\"hlc1\"")]);
    let msg = message_from_http(&m).unwrap();
    assert_eq!(msg.body, vec![0xff, 0x00]);
    assert_eq!(msg.created_at_hlc, "hlc1");
    let bad = obj(vec![("value", text("***"), "\"***\"")]);
    let e = protocol_message(user_metadata_from_http(&bad).unwrap_err());
    assert!(e.starts_with("invalid base64 value: "), "{e}");
    let wrong = obj(vec![("value", num(3), "3")]);
    assert_eq!(protocol_message(user_metadata_from_http(&wrong).unwrap_err()), "invalid base64 value");
    let a = obj(vec![("attachment_type", text("channel_writer"), "\"channel_writer\"")]);
    let att = attachment_from_http(&a).unwrap();
    assert_eq!(att.attachment_type, AttachmentType::ChannelWriter);
    assert_eq!(att.config_json, b"{}".to_vec());
    let a = obj(vec![("attachment_type", text("friend"), "\"friend\"")]);
    assert_eq!(protocol_message(attachment_from_http(&a).unwrap_err()), "unsupported attachment type \"friend\"");
}

#[test]
fn scan_counts_items_when_count_is_missing() {
    let entry = JsonValue::Object(obj(vec![("key", text("session:web:1"), "\"session:web:1\"")]));
    let page = obj(vec![
        ("items", JsonValue::Array(vec![entry]), "[]"),
        ("next_after", text("session:web:1"), "\"session:web:1\""),
    ]);
    let s = user_metadata_scan_result_from_http(&page).unwrap();
    assert_eq!(s.count, 1);
    assert_eq!(s.items[0].key, "session:web:1");
    assert_eq!(s.next_after, "session:web:1");
    let e = user_metadata_scan_result_from_http(&Vec::new()).unwrap_err();
    assert_eq!(protocol_message(e), "missing items in scan_user_metadata response");
}

#[test]
fn integer_texts_parse_like_std() {
    assert_eq!(parse_i64("42"), Some(42));
    assert_eq!(parse_i64("-9223372036854775808"), Some(i64::MIN));
    assert_eq!(parse_i64("9223372036854775808"), None);
    assert_eq!(parse_i64("+7"), Some(7));
    assert_eq!(parse_i64("-"), None);
    assert_eq!(parse_i64(" 1"), None);
    assert_eq!(parse_u64("18446744073709551615"), Some(u64::MAX));
    assert_eq!(parse_u64("18446744073709551616"), None);
    assert_eq!(parse_u64("-0"), None);
    for s in ["0", "12", "-3", "+", "", "1a", "99999999999999999999"] {
        assert_eq!(parse_i64(s), s.parse::<i64>().ok(), "{s}");
        assert_eq!(parse_u64(s), s.parse::<u64>().ok(), "{s}");
    }
}

#[test]
fn http_client_maps_server_errors_and_validates_node_id() {
    let owner = UserRef { node_id: 4096, user_id: 1025 };
    assert!(matches!(list_node_logged_in_users_request("token", 0), Err(Error::Validation(_))));
    assert!(matches!(get_user_metadata_request("token", &owner, "bad/key"), Err(Error::Validation(_))));
    let scan = ScanUserMetadataRequest { prefix: String::new(), after: String::new(), limit: -1 };
    assert!(matches!(scan_user_metadata_request("token", &owner, &scan), Err(Error::Validation(_))));

    let request = get_user_request("bad-token", &owner).unwrap();
    assert_eq!(request.path, "/nodes/4096/users/1025");
    let answer = JsonValue::Object(obj(vec![
        ("code", text("unauthorized"), "\"unauthorized\""),
        ("message", text("bad token"), "\"bad token\""),
    ]));
    let result = read_response(401, "{}".to_string(), &request.statuses, Some(answer));
    assert!(matches!(result, Err(Error::Server(server)) if server.code == "unauthorized"));
}

fn text_member(body: &[(String, BodyValue)], key: &str) -> String {
    match body.iter().find(|(k, _)| k == key) {
        Some((_, BodyValue::Text(t))) => t.clone(),
        other => panic!("expected text member {key}, got {other:?}"),
    }
}

#[test]
fn user_bodies_carry_bcrypt_hashes_of_plain_passwords() {
    let req = CreateUserRequest {
        username: "alice".to_string(),
        login_name: Some("alice.login".to_string()),
        password: Some(plain_password("alice-password").unwrap()),
        profile_json: br#"{"tier":"gold"}"#.to_vec(),
        role: "user".to_string(),
    };
    let r = create_user_request("admin-token", req).unwrap();
    assert_eq!(r.token, "admin-token");
    let body = r.body.unwrap();
    assert_eq!(text_member(&body, "login_name"), "alice.login");
    let hash = text_member(&body, "password");
    assert_ne!(hash, "alice-password");
    assert!(bcrypt::verify("alice-password", &hash).unwrap());
    assert!(body.iter().all(|(k, _)| k != "profile_json"));

    let target = UserRef { node_id: 4096, user_id: 1025 };
    let req = UpdateUserRequest {
        username: Some("alice-2".to_string()),
        login_name: Some(String::new()),
        password: Some(plain_password("new-password").unwrap()),
        profile_json: Some(br#"{"tier":"platinum"}"#.to_vec()),
        role: Some("admin".to_string()),
    };
    let r = update_user_request("admin-token", &target, req).unwrap();
    assert!(matches!(r.method, HttpMethod::Patch));
    assert_eq!(r.path, "/nodes/4096/users/1025");
    let body = r.body.unwrap();
    assert_eq!(text_member(&body, "login_name"), "");
    let hash = text_member(&body, "password");
    assert_ne!(hash, "new-password");
    assert!(bcrypt::verify("new-password", &hash).unwrap());
}
