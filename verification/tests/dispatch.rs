use turntf::client::ClientEvent;
use turntf::dispatch::{
    plan_server_envelope, EnvelopePlan, RpcValue, StoreAction, StoreEvent, StoreFlow, StorePurpose,
};
use turntf::errors::{ClosedError, Error};
use turntf::types::{Message, MessageCursor, UserRef};
use turntf::wire;

fn message(seq: i64) -> Message {
    Message {
        recipient: UserRef { node_id: 4096, user_id: 1025 },
        node_id: 4096,
        seq,
        sender: UserRef { node_id: 4096, user_id: 1 },
        body: b"message".to_vec(),
        created_at_hlc: "hlc".to_string(),
    }
}

#[test]
fn pushed_message_is_stored_then_acked_then_reported() {
    let (mut flow, first) = StoreFlow::start(message(99), StorePurpose::Pushed { ack: true });
    assert!(matches!(first, StoreAction::SaveMessage(ref m) if m.seq == 99));
    let second = flow.step(StoreEvent::Saved);
    assert!(matches!(second, StoreAction::SaveCursor(MessageCursor { node_id: 4096, seq: 99 })));
    let third = flow.step(StoreEvent::Saved);
    match third {
        StoreAction::SendAck(wire::ClientBody::AckMessage { cursor }) => {
            assert_eq!(cursor, Some(wire::MessageCursor { node_id: 4096, seq: 99 }));
        }
        other => panic!("expected an ack, got {other:?}"),
    }
    match flow.step(StoreEvent::AckWritten(Ok(()))) {
        StoreAction::Emit(events) => {
            assert_eq!(events, vec![ClientEvent::Message(message(99))]);
        }
        other => panic!("expected the message event, got {other:?}"),
    }
    assert!(matches!(flow.step(StoreEvent::Saved), StoreAction::Ignore));
}

#[test]
fn failed_save_neither_acks_nor_reports() {
    let (mut flow, _) = StoreFlow::start(message(5), StorePurpose::Pushed { ack: true });
    match flow.step(StoreEvent::SaveFailed("disk full".to_string())) {
        StoreAction::Fail(Error::Store(e)) => {
            assert_eq!(e.op, "save_message");
            assert_eq!(e.message, "disk full");
        }
        other => panic!("expected a store failure, got {other:?}"),
    }
    assert!(matches!(flow.step(StoreEvent::Saved), StoreAction::Ignore));
    let (mut flow, _) = StoreFlow::start(message(5), StorePurpose::Pushed { ack: true });
    flow.step(StoreEvent::Saved);
    assert!(matches!(flow.step(StoreEvent::SaveFailed("x".to_string())), StoreAction::Fail(Error::Store(ref e)) if e.op == "save_cursor"));
}

#[test]
fn ack_write_errors_are_reported_except_disconnects() {
    let (mut flow, _) = StoreFlow::start(message(7), StorePurpose::Pushed { ack: true });
    flow.step(StoreEvent::Saved);
    flow.step(StoreEvent::Saved);
    match flow.step(StoreEvent::AckWritten(Err(Error::connection("write", "broken")))) {
        StoreAction::Emit(events) => {
            assert_eq!(events.len(), 2);
            assert_eq!(events[0], ClientEvent::Error(Error::connection("write", "broken")));
            assert_eq!(events[1], ClientEvent::Message(message(7)));
        }
        other => panic!("unexpected {other:?}"),
    }
    let (mut flow, _) = StoreFlow::start(message(7), StorePurpose::Pushed { ack: true });
    flow.step(StoreEvent::Saved);
    flow.step(StoreEvent::Saved);
    match flow.step(StoreEvent::AckWritten(Err(Error::Closed(ClosedError)))) {
        StoreAction::Emit(events) => assert_eq!(events, vec![ClientEvent::Message(message(7))]),
        other => panic!("unexpected {other:?}"),
    }
}

#[test]
fn no_ack_when_disabled() {
    let (mut flow, _) = StoreFlow::start(message(8), StorePurpose::Pushed { ack: false });
    flow.step(StoreEvent::Saved);
    assert!(matches!(flow.step(StoreEvent::Saved), StoreAction::Emit(ref e) if e.len() == 1));
}

#[test]
fn replies_are_stored_before_answering() {
    let (mut flow, _) = StoreFlow::start(message(9), StorePurpose::Reply { request_id: 12 });
    flow.step(StoreEvent::Saved);
    match flow.step(StoreEvent::Saved) {
        StoreAction::Resolve { request_id, result: Ok(RpcValue::Message(m)) } => {
            assert_eq!(request_id, 12);
            assert_eq!(m.seq, 9);
        }
        other => panic!("unexpected {other:?}"),
    }
    let (mut flow, _) = StoreFlow::start(message(9), StorePurpose::Reply { request_id: 12 });
    match flow.step(StoreEvent::SaveFailed("nope".to_string())) {
        StoreAction::Resolve { request_id: 12, result: Err(Error::Store(e)) } => assert_eq!(e.op, "save_message"),
        other => panic!("unexpected {other:?}"),
    }
}

#[test]
fn envelope_plans() {
    let pushed = plan_server_envelope(Some(wire::ServerBody::MessagePushed {
        message: Some(wire::Message { node_id: 1, seq: 2, ..Default::default() }),
    }))
    .unwrap();
    assert!(matches!(pushed, EnvelopePlan::StorePushed(ref m) if m.seq == 2));

    let packet = plan_server_envelope(Some(wire::ServerBody::PacketPushed {
        packet: Some(wire::Packet { packet_id: 5, body: b"pkt".to_vec(), ..Default::default() }),
    }))
    .unwrap();
    assert!(matches!(packet, EnvelopePlan::Emit(ClientEvent::Packet(ref p)) if p.packet_id == 5));

    let pong = plan_server_envelope(Some(wire::ServerBody::Pong { request_id: 4 })).unwrap();
    assert!(matches!(pong, EnvelopePlan::Resolve { request_id: 4, result: Ok(RpcValue::Unit) }));

    let empty = plan_server_envelope(Some(wire::ServerBody::SendMessageResponse { request_id: 3, body: None })).unwrap();
    assert!(matches!(empty, EnvelopePlan::Resolve { request_id: 3, result: Err(Error::Protocol(_)) }));

    let reply = plan_server_envelope(Some(wire::ServerBody::SendMessageResponse {
        request_id: 3,
        body: Some(wire::SendMessageResult::Message(wire::Message { seq: 11, ..Default::default() })),
    }))
    .unwrap();
    assert!(matches!(reply, EnvelopePlan::StoreReply { request_id: 3, ref message } if message.seq == 11));
}

#[test]
fn server_errors_with_and_without_request() {
    let routed = plan_server_envelope(Some(wire::ServerBody::Error {
        code: "not_found".to_string(),
        message: "no user".to_string(),
        request_id: 8,
    }))
    .unwrap();
    assert!(matches!(routed, EnvelopePlan::Resolve { request_id: 8, result: Err(Error::Server(ref e)) } if e.code == "not_found"));
    let raised = plan_server_envelope(Some(wire::ServerBody::Error {
        code: "overloaded".to_string(),
        message: "later".to_string(),
        request_id: 0,
    }));
    assert!(matches!(raised, Err(Error::Server(ref e)) if e.server_message == "later"));
}

#[test]
fn unexpected_envelopes_are_protocol_errors() {
    let e = plan_server_envelope(None).unwrap_err();
    assert!(matches!(e, Error::Protocol(ref p) if p.protocol_message == "unsupported server envelope"));
    let e = plan_server_envelope(Some(wire::ServerBody::LoginResponse(wire::LoginResponse::default()))).unwrap_err();
    assert!(matches!(e, Error::Protocol(ref p) if p.protocol_message == "unexpected login_response after authentication"));
    let e = plan_server_envelope(Some(wire::ServerBody::GetUserResponse { request_id: 1, user: None })).unwrap_err();
    assert!(matches!(e, Error::Protocol(ref p) if p.protocol_message == "missing user"));
}
