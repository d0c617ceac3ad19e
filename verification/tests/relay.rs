use turntf::relay::{
    open_step, OpenAction, OpenEvent, OpenOutcome, OpenStage, RelayRegistry,
    connect_target, frame_action, incoming_open_decision, receive_wait_ms, relay_kind_from_proto,
    relay_kind_to_proto, FrameAction, OpenDecision, RelayConfig, RelayConnectionCore, RelayError,
    RelayKind, RelayState, Reliability, RetransmitOutcome,
};
use turntf::types::{DeliveryMode, ResolvedSession, SessionRef};

#[test]
fn config_defaults_and_builder() {
    let c = RelayConfig::default();
    assert_eq!(c.reliability, Reliability::ReliableOrdered);
    assert_eq!(c.window_size, 16);
    assert_eq!(c.max_retransmits, 5);
    assert_eq!(c.delivery_mode, DeliveryMode::RouteRetry);
    let c = RelayConfig::builder().reliability(Reliability::AtLeastOnce).window_size(4).max_retransmits(2).build();
    assert_eq!(c.reliability, Reliability::AtLeastOnce);
    assert_eq!(c.window_size, 4);
    assert_eq!(c.max_retransmits, 2);
    assert_eq!(c.open_timeout_ms, 10000);
}

#[test]
fn kinds_round_trip() {
    for k in [
        RelayKind::Unspecified,
        RelayKind::Open,
        RelayKind::OpenAck,
        RelayKind::Data,
        RelayKind::Ack,
        RelayKind::Close,
        RelayKind::Ping,
        RelayKind::Error,
    ] {
        assert_eq!(relay_kind_from_proto(relay_kind_to_proto(k)), k);
    }
    assert_eq!(relay_kind_from_proto(42), RelayKind::Unspecified);
    assert_eq!(frame_action(RelayKind::Ping), FrameAction::Ping);
    assert_eq!(frame_action(RelayKind::Open), FrameAction::AcceptIncoming);
}

#[test]
fn ordered_receiver_delivers_in_order_once() {
    let mut core = RelayConnectionCore::new_outbound(RelayConfig::default());
    assert!(core.on_open_ack());
    let out = core.on_data(2, b"two".to_vec());
    assert!(out.deliver.is_empty());
    assert_eq!(out.ack_seq, Some(2));
    let out = core.on_data(1, b"one".to_vec());
    assert_eq!(out.deliver, vec![b"one".to_vec(), b"two".to_vec()]);
    let out = core.on_data(1, b"one".to_vec());
    assert!(out.deliver.is_empty());
    let out = core.on_data(3, b"three".to_vec());
    assert_eq!(out.deliver, vec![b"three".to_vec()]);
    // Far outside the window: dropped, still acknowledged.
    let out = core.on_data(100, b"far".to_vec());
    assert!(out.deliver.is_empty());
    assert_eq!(out.ack_seq, Some(100));
}

#[test]
fn sliding_window_and_acks() {
    let cfg = RelayConfig::builder().window_size(2).max_retransmits(1).build();
    let mut core = RelayConnectionCore::new_outbound(cfg);
    core.on_open_ack();
    assert!(core.window_has_room());
    assert_eq!(core.enqueue(&b"a".to_vec()), 1);
    assert_eq!(core.enqueue(&b"b".to_vec()), 2);
    assert!(!core.window_has_room());
    match core.retransmit_tick() {
        RetransmitOutcome::Resend(frames) => {
            let mut seqs: Vec<u64> = frames.iter().map(|f| f.0).collect();
            seqs.sort();
            assert_eq!(seqs, vec![1, 2]);
        }
        other => panic!("unexpected {other:?}"),
    }
    core.on_ack(1);
    assert!(core.window_has_room());
    assert!(matches!(core.retransmit_tick(), RetransmitOutcome::Resend(ref f) if f.len() == 1));
    assert!(matches!(core.retransmit_tick(), RetransmitOutcome::GiveUp));
}

#[test]
fn open_and_close_states() {
    let mut core = RelayConnectionCore::new_outbound(RelayConfig::default());
    assert_eq!(core.state(), RelayState::Opening);
    assert!(core.send_check(3, false).is_err());
    assert!(core.on_open_ack());
    assert!(!core.on_open_ack());
    assert_eq!(core.send_check(0, false).unwrap(), false);
    assert_eq!(core.send_check(3, false).unwrap(), true);
    assert_eq!(core.send_check(3, true).unwrap_err().code, "client_closed");
    assert!(core.begin_close());
    assert_eq!(core.state(), RelayState::Closing);
    assert_eq!(core.send_check(3, false).unwrap_err().code, "not_connected");
    assert!(core.mark_closed());
    assert!(!core.mark_closed());
    assert!(!core.on_open_ack());
    assert_eq!(core.state(), RelayState::Closed);
    let inbound = RelayConnectionCore::new_inbound();
    assert_eq!(inbound.state(), RelayState::Open);
}

#[test]
fn concurrent_open_keeps_lower_id() {
    assert_eq!(incoming_open_decision("b", None), OpenDecision::Register);
    assert_eq!(incoming_open_decision("a", Some("b")), OpenDecision::ReplaceExisting);
    assert_eq!(incoming_open_decision("c", Some("b")), OpenDecision::RejectNew);
    assert_eq!(incoming_open_decision("b", Some("b")), OpenDecision::RejectNew);
}

#[test]
fn connect_picks_first_transient_session() {
    let s = |id: &str, t: bool| ResolvedSession {
        session: SessionRef { serving_node_id: 1, session_id: id.to_string() },
        transport: "ws".to_string(),
        transient_capable: t,
    };
    let picked = connect_target(Ok(vec![s("a", false), s("b", true), s("c", true)])).unwrap();
    assert_eq!(picked.session_id, "b");
    let e = connect_target(Ok(vec![s("a", false)])).unwrap_err();
    assert_eq!(e.code, "not_connected");
    assert_eq!(e.message, "no transient-capable session found for target user");
    let e = connect_target(Err("boom".to_string())).unwrap_err();
    assert_eq!(e.message, "resolve sessions: boom");
    assert_eq!(RelayError::new("open_timeout", "late").describe(), "relay: open_timeout: late");
    assert_eq!(receive_wait_ms(None, &RelayConfig::default()), 0);
    assert_eq!(receive_wait_ms(Some(5), &RelayConfig::default()), 5);
}

#[test]
fn send_run_numbers_frames_in_order_within_the_window() {
    let cfg = RelayConfig::builder().window_size(3).build();
    let mut core = RelayConnectionCore::new_outbound(cfg);
    core.on_open_ack();
    let mut numbers = Vec::new();
    for payload in [b"p1".to_vec(), b"p2".to_vec(), b"p3".to_vec(), b"p4".to_vec(), b"p5".to_vec()] {
        while !core.window_has_room() {
            let oldest = numbers.len() as u64 - 2;
            core.on_ack(oldest);
        }
        numbers.push(core.enqueue(&payload));
    }
    assert_eq!(numbers, vec![1, 2, 3, 4, 5]);
}

#[test]
fn ordered_receiver_drops_the_last_number_outside_the_window() {
    let mut core = RelayConnectionCore::new_inbound();
    let out = core.on_data(u64::MAX, b"late".to_vec());
    assert!(out.deliver.is_empty());
    assert_eq!(out.ack_seq, Some(u64::MAX));
    let out = core.on_data(1, b"first".to_vec());
    assert_eq!(out.deliver, vec![b"first".to_vec()]);
}

#[test]
fn repeated_open_keeps_the_registered_connection() {
    let mut reg: RelayRegistry<u32> = RelayRegistry::new();
    assert_eq!(reg.len(), 0);
    assert!(matches!(reg.accept_open("r-1".to_string(), 1), OpenOutcome::Accepted));
    assert_eq!(reg.get("r-1"), Some(&1));
    match reg.accept_open("r-1".to_string(), 2) {
        OpenOutcome::Refused { conn, reason } => {
            assert_eq!(conn, 2);
            assert_eq!(reason.code, "duplicate_open");
            assert_eq!(reason.message, "concurrent OPEN, keeping lower relay_id");
        }
        other => panic!("unexpected {other:?}"),
    }
    assert_eq!(reg.get("r-1"), Some(&1));
    assert_eq!(reg.len(), 1);
    assert!(matches!(reg.accept_open("r-0".to_string(), 3), OpenOutcome::Accepted));
    assert_eq!(reg.len(), 2);
    reg.insert("r-0".to_string(), 4);
    assert_eq!(reg.get("r-0"), Some(&4));
    assert_eq!(reg.len(), 2);
    assert_eq!(reg.remove("r-1"), Some(1));
    assert_eq!(reg.remove("r-1"), None);
    assert_eq!(reg.get("r-1"), None);
    assert_eq!(reg.len(), 1);
}

#[test]
fn opening_registers_sends_and_waits() {
    let target = SessionRef { serving_node_id: 2, session_id: "t".to_string() };
    let own = SessionRef { serving_node_id: 1, session_id: "me".to_string() };
    let (stage, action) = open_step(
        OpenStage::Resolving,
        OpenEvent::Resolved { target: Ok(target.clone()), own: Some(own.clone()) },
    );
    assert_eq!(stage, OpenStage::SendingOpen);
    assert!(matches!(action, OpenAction::RegisterAndSend { target: ref t, own: ref o } if *t == target && *o == own));
    let (stage, action) = open_step(stage, OpenEvent::OpenSent(Ok(())));
    assert_eq!(stage, OpenStage::AwaitingAck);
    assert!(matches!(action, OpenAction::AwaitAck));
    let (stage, action) = open_step(stage, OpenEvent::TimedOut);
    assert_eq!(stage, OpenStage::Finished);
    assert!(matches!(action, OpenAction::CloseAndFail(ref e) if e.code == "open_timeout"));
    let (_, action) = open_step(OpenStage::AwaitingAck, OpenEvent::OpenAcked);
    assert!(matches!(action, OpenAction::Connected));
    let failed = RelayError::new("protocol_error", "send failed");
    let (_, action) = open_step(OpenStage::SendingOpen, OpenEvent::OpenSent(Err(failed.clone())));
    assert!(matches!(action, OpenAction::RemoveAndFail(ref e) if e.code == failed.code && e.message == failed.message));
    let (_, action) = open_step(OpenStage::Resolving, OpenEvent::Resolved { target: Ok(target), own: None });
    assert!(matches!(action, OpenAction::Fail(ref e) if e.code == "not_connected" && e.message == "client not logged in"));
    let (stage, action) = open_step(OpenStage::Finished, OpenEvent::OpenAcked);
    assert_eq!(stage, OpenStage::Finished);
    assert!(matches!(action, OpenAction::Ignore));
}
