use turntf::errors::Error;
use turntf::mapping::{
    attachment_from_proto, attachment_type_from_proto, attachment_type_to_proto, attachments_from_proto,
    blacklist_entry_from_proto, delivery_mode_from_proto, delivery_mode_to_proto, login_info_from_proto,
    message_from_proto, messages_from_proto, operations_status_from_proto, optional_session_ref_from_proto,
    packet_from_proto, resolved_user_sessions_from_proto, session_ref_from_proto, subscription_from_proto,
    user_from_proto, user_ref_from_proto, user_ref_to_proto,
};
use turntf::types::{AttachmentType, DeliveryMode, UserRef};
use turntf::wire;

fn protocol_message(e: Error) -> String {
    match e {
        Error::Protocol(p) => p.protocol_message,
        other => panic!("expected a protocol error, got {other:?}"),
    }
}

fn session(node: i64, id: &str) -> wire::SessionRef {
    wire::SessionRef { serving_node_id: node, session_id: id.to_string() }
}

#[test]
fn delivery_modes_round_trip() {
    for mode in [DeliveryMode::Unspecified, DeliveryMode::BestEffort, DeliveryMode::RouteRetry] {
        assert_eq!(delivery_mode_from_proto(delivery_mode_to_proto(mode)), mode);
    }
    assert_eq!(delivery_mode_to_proto(DeliveryMode::RouteRetry), 2);
    assert_eq!(delivery_mode_from_proto(9), DeliveryMode::Unspecified);
}

#[test]
fn attachment_types_round_trip_and_unknown_is_refused() {
    for t in [
        AttachmentType::ChannelManager,
        AttachmentType::ChannelWriter,
        AttachmentType::ChannelSubscription,
        AttachmentType::UserBlacklist,
    ] {
        assert_eq!(attachment_type_from_proto(attachment_type_to_proto(t)).unwrap(), t);
    }
    assert_eq!(attachment_type_to_proto(AttachmentType::ChannelSubscription), 3);
    assert_eq!(protocol_message(attachment_type_from_proto(0).unwrap_err()), "unsupported attachment type 0");
    assert_eq!(protocol_message(attachment_type_from_proto(-7).unwrap_err()), "unsupported attachment type -7");
}

#[test]
fn user_refs_default_when_absent() {
    let u = UserRef { node_id: 4096, user_id: 1025 };
    assert_eq!(user_ref_from_proto(Some(user_ref_to_proto(&u))), u);
    assert_eq!(user_ref_from_proto(None), UserRef { node_id: 0, user_id: 0 });
}

#[test]
fn session_refs_are_checked() {
    assert_eq!(protocol_message(session_ref_from_proto(None).unwrap_err()), "missing session_ref");
    assert_eq!(
        protocol_message(session_ref_from_proto(Some(session(0, "s"))).unwrap_err()),
        "invalid session_ref.serving_node_id"
    );
    assert_eq!(
        protocol_message(session_ref_from_proto(Some(session(3, ""))).unwrap_err()),
        "invalid session_ref.session_id"
    );
    let s = session_ref_from_proto(Some(session(3, "main"))).unwrap();
    assert_eq!(s.serving_node_id, 3);
    assert_eq!(s.session_id, "main");
    assert_eq!(optional_session_ref_from_proto(None).unwrap(), None);
}

#[test]
fn users_and_messages_convert() {
    assert_eq!(protocol_message(user_from_proto(None).unwrap_err()), "missing user");
    let w = wire::User {
        node_id: 4096,
        user_id: 1025,
        username: "alice".to_string(),
        role: "user".to_string(),
        profile_json: b"{}".to_vec(),
        login_name: "alice.login".to_string(),
        ..Default::default()
    };
    let u = user_from_proto(Some(w)).unwrap();
    assert_eq!(u.username, "alice");
    assert_eq!(u.login_name, "alice.login");
    assert_eq!(u.profile_json, b"{}".to_vec());

    assert_eq!(protocol_message(message_from_proto(None).unwrap_err()), "missing message");
    let m = message_from_proto(Some(wire::Message {
        recipient: Some(wire::UserRef { node_id: 1, user_id: 2 }),
        node_id: 1,
        seq: 99,
        sender: None,
        body: b"hello".to_vec(),
        created_at_hlc: "hlc1".to_string(),
    }))
    .unwrap();
    assert_eq!(m.seq, 99);
    assert_eq!(m.sender, UserRef { node_id: 0, user_id: 0 });
    assert_eq!(m.cursor().seq, 99);
}

#[test]
fn packets_check_their_target_session() {
    let p = packet_from_proto(Some(wire::Packet {
        packet_id: 77,
        delivery_mode: 1,
        target_session: Some(session(2, "target-session")),
        body: b"pkt".to_vec(),
        ..Default::default()
    }))
    .unwrap();
    assert_eq!(p.packet_id, 77);
    assert_eq!(p.delivery_mode, DeliveryMode::BestEffort);
    assert_eq!(p.target_session.unwrap().session_id, "target-session");
    let e = packet_from_proto(Some(wire::Packet { target_session: Some(session(2, "")), ..Default::default() }))
        .unwrap_err();
    assert_eq!(protocol_message(e), "invalid session_ref.session_id");
    assert_eq!(protocol_message(packet_from_proto(None).unwrap_err()), "missing packet");
}

#[test]
fn attachments_and_derived_records() {
    let a = wire::Attachment {
        owner: Some(wire::UserRef { node_id: 4096, user_id: 1025 }),
        subject: Some(wire::UserRef { node_id: 4096, user_id: 2025 }),
        attachment_type: 3,
        config_json: b"{}".to_vec(),
        attached_at: "hlc-sub".to_string(),
        deleted_at: String::new(),
        origin_node_id: 4096,
    };
    let s = subscription_from_proto(Some(a.clone())).unwrap();
    assert_eq!(s.subscriber.user_id, 1025);
    assert_eq!(s.channel.user_id, 2025);
    assert_eq!(s.subscribed_at, "hlc-sub");
    let b = blacklist_entry_from_proto(Some(a.clone())).unwrap();
    assert_eq!(b.blocked.user_id, 2025);
    let bad = wire::Attachment { attachment_type: 8, ..a.clone() };
    assert_eq!(protocol_message(attachment_from_proto(Some(bad.clone())).unwrap_err()), "unsupported attachment type 8");
    let e = attachments_from_proto(vec![a.clone(), bad, a]).unwrap_err();
    assert_eq!(protocol_message(e), "unsupported attachment type 8");
}

#[test]
fn lists_keep_order() {
    let items = vec![
        wire::Message { seq: 1, ..Default::default() },
        wire::Message { seq: 2, ..Default::default() },
        wire::Message { seq: 3, ..Default::default() },
    ];
    let v = messages_from_proto(items).unwrap();
    assert_eq!(v.iter().map(|m| m.seq).collect::<Vec<_>>(), vec![1, 2, 3]);
}

#[test]
fn resolved_sessions_fail_on_first_bad_session() {
    let resp = wire::ResolveUserSessionsResponse {
        request_id: 5,
        user: Some(wire::UserRef { node_id: 1, user_id: 2 }),
        presence: vec![wire::OnlineNodePresence { serving_node_id: 1, session_count: 2, transport_hint: "ws".to_string() }],
        items: vec![
            wire::ResolvedSession { session: Some(session(1, "a")), transport: "ws".to_string(), transient_capable: true },
        ],
    };
    let r = resolved_user_sessions_from_proto(resp.clone()).unwrap();
    assert_eq!(r.sessions.len(), 1);
    assert_eq!(r.presence[0].session_count, 2);
    let mut bad = resp;
    bad.items.push(wire::ResolvedSession { session: None, transport: String::new(), transient_capable: false });
    assert_eq!(protocol_message(resolved_user_sessions_from_proto(bad).unwrap_err()), "missing session_ref");
}

#[test]
fn operations_status_defaults_missing_counters() {
    let s = operations_status_from_proto(Some(wire::OperationsStatus {
        node_id: 4096,
        message_window_size: 128,
        peers: vec![wire::PeerStatus {
            node_id: 2,
            origins: vec![wire::PeerOriginStatus { origin_node_id: 9, ..Default::default() }],
            ..Default::default()
        }],
        ..Default::default()
    }))
    .unwrap();
    assert_eq!(s.message_trim.trimmed_total, 0);
    assert_eq!(s.peers[0].origins[0].origin_node_id, 9);
    assert!(s.event_log_trim.is_none());
    assert_eq!(protocol_message(operations_status_from_proto(None).unwrap_err()), "missing operations status");
}

#[test]
fn login_info_checks_user_then_session() {
    let e = login_info_from_proto(wire::LoginResponse::default()).unwrap_err();
    assert_eq!(protocol_message(e), "missing user");
    let e = login_info_from_proto(wire::LoginResponse {
        user: Some(wire::User::default()),
        protocol_version: "client-v1alpha1".to_string(),
        session_ref: None,
    })
    .unwrap_err();
    assert_eq!(protocol_message(e), "missing session_ref");
    let info = login_info_from_proto(wire::LoginResponse {
        user: Some(wire::User { username: "alice".to_string(), ..Default::default() }),
        protocol_version: "client-v1alpha1".to_string(),
        session_ref: Some(session(4096, "session-main")),
    })
    .unwrap();
    assert_eq!(info.protocol_version, "client-v1alpha1");
    assert_eq!(info.session_ref.session_id, "session-main");
}
