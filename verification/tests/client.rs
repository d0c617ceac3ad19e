use turntf::client::{
    expect_login, next_reconnect_delay, ping_step, prepare_config, read_step, rpc_outcome, run_step,
    session_end, websocket_endpoint, websocket_url, ClientEvent, IdCounter, Config, ConnectStart, ConnectionState, FrameKind,
    PingStep, ReadStep, RpcWait, RunStep,
};
use turntf::dispatch::RpcValue;
use turntf::errors::{ClosedError, DisconnectedError, Error, NotConnectedError};
use turntf::password::hashed_password;
use turntf::types::{Credentials, MessageCursor};
use turntf::wire;

fn creds(node_id: i64, user_id: i64) -> Credentials {
    Credentials { node_id, user_id, password: hashed_password("$2b$12$hash") }
}

fn validation_message(e: Error) -> String {
    match e {
        Error::Validation(v) => v.message,
        other => panic!("expected a validation error, got {other:?}"),
    }
}

#[test]
fn config_defaults() {
    let c = Config::new("http://localhost:8080", creds(4096, 1025));
    assert!(c.reconnect);
    assert_eq!(c.initial_reconnect_delay, 1000);
    assert_eq!(c.max_reconnect_delay, 30000);
    assert_eq!(c.ping_interval, 30000);
    assert_eq!(c.request_timeout, 10000);
    assert!(c.ack_messages);
    assert!(!c.transient_only);
    assert!(!c.realtime_stream);
    assert_eq!(c.event_channel_capacity, 256);
    let c = Config::new_with_login_name("http://x", "alice", hashed_password("h"));
    assert_eq!(c.credentials.node_id, 0);
    assert_eq!(c.login_name.as_deref(), Some("alice"));
}

#[test]
fn config_checks() {
    let e = prepare_config(Config::new("  ", creds(1, 1))).unwrap_err();
    assert_eq!(validation_message(e), "base_url is required");
    let e = prepare_config(Config::new("http://x", creds(0, 1))).unwrap_err();
    assert_eq!(validation_message(e), "credentials.node_id is required");
    let e = prepare_config(Config::new("http://x", creds(1, 0))).unwrap_err();
    assert_eq!(validation_message(e), "credentials.user_id is required");
    let e = prepare_config(Config::new("http://x", Credentials { node_id: 1, user_id: 1, password: hashed_password("") }))
        .unwrap_err();
    assert_eq!(validation_message(e), "password is required");
    let e = prepare_config(Config::new_with_login_name("http://x", "   ", hashed_password("h"))).unwrap_err();
    assert_eq!(validation_message(e), "login_name is required");
    let mut c = Config::new_with_login_name("http://x", "  alice ", hashed_password("h"));
    c.event_channel_capacity = 0;
    let c = prepare_config(c).unwrap();
    assert_eq!(c.login_name.as_deref(), Some("alice"));
    assert_eq!(c.event_channel_capacity, 1);
}

#[test]
fn close_is_idempotent_and_final() {
    let mut s = ConnectionState::new();
    assert!(matches!(s.connect_start(), ConnectStart::Start));
    s.set_connected(true);
    assert!(matches!(s.connect_start(), ConnectStart::Connected));
    let first = s.close();
    assert_eq!(first.disconnect, Some(ClientEvent::Disconnect(Error::Closed(ClosedError))));
    assert_eq!(first.fail_pending, Error::Closed(ClosedError));
    assert!(!s.connected);
    assert_eq!(s.terminal_error, Some(Error::Closed(ClosedError)));
    let again = s.close();
    assert_eq!(again.disconnect, None);
    assert_eq!(again.fail_pending, Error::Closed(ClosedError));
    assert!(matches!(s.connect_start(), ConnectStart::Refused(Error::Closed(_))));
    s.restart();
    assert!(s.closed);
    assert!(!s.should_retry(true, &Error::connection("read", "x")));
    assert_eq!(s.connect_outcome(), Some(Err(Error::Closed(ClosedError))));
}

#[test]
fn retry_rules() {
    let s = ConnectionState::new();
    assert!(s.should_retry(true, &Error::connection("dial", "refused")));
    assert!(!s.should_retry(false, &Error::connection("dial", "refused")));
    assert!(!s.should_retry(true, &Error::Closed(ClosedError)));
    let unauthorized = Error::Server(turntf::errors::ServerError::new("unauthorized", "no", 0));
    assert!(!s.should_retry(true, &unauthorized));
    let other = Error::Server(turntf::errors::ServerError::new("internal_error", "no", 0));
    assert!(s.should_retry(true, &other));
}

#[test]
fn backoff_doubles_up_to_max() {
    let mut d = 1000u64;
    let mut seen = Vec::new();
    for _ in 0..7 {
        d = next_reconnect_delay(d, 30000);
        seen.push(d);
    }
    assert_eq!(seen, vec![2000, 4000, 8000, 16000, 30000, 30000, 30000]);
    assert_eq!(next_reconnect_delay(u64::MAX, u64::MAX), u64::MAX);
}

#[test]
fn run_loop_steps() {
    let cfg = Config::new("http://x", creds(1, 1));
    let state = ConnectionState::new();
    let mut delay = 4000u64;
    match run_step(&cfg, &state, &mut delay, Err(Error::connection("read", "websocket closed"))) {
        RunStep::RetryAfter { delay: wait, .. } => assert_eq!(wait, 4000),
        other => panic!("unexpected step {other:?}"),
    }
    assert_eq!(delay, 8000);
    assert!(matches!(run_step(&cfg, &state, &mut delay, Ok(())), RunStep::Reconnect));
    assert_eq!(delay, 1000);
    let mut closed = ConnectionState::new();
    closed.close();
    assert!(matches!(run_step(&cfg, &closed, &mut delay, Ok(())), RunStep::StopClosed));
    let step = run_step(&cfg, &closed, &mut delay, Err(Error::connection("read", "x")));
    assert!(matches!(step, RunStep::Stop { .. }));
}

#[test]
fn unauthorized_login_stops_reconnecting() {
    let mut s = ConnectionState::new();
    let r = expect_login(
        &mut s,
        Some(wire::ServerBody::Error { code: "unauthorized".to_string(), message: "bad password".to_string(), request_id: 0 }),
    );
    assert!(matches!(r, Err(Error::Server(ref e)) if e.code == "unauthorized"));
    assert!(s.stop_reconnect);
    let mut s = ConnectionState::new();
    let r = expect_login(&mut s, Some(wire::ServerBody::Pong { request_id: 1 }));
    assert!(matches!(r, Err(Error::Protocol(ref p)) if p.protocol_message == "expected login_response or error"));
    assert!(!s.stop_reconnect);
}

#[test]
fn login_frame_carries_seen_cursors() {
    let cfg = Config::new("http://x", creds(4096, 1025));
    let seen = vec![MessageCursor { node_id: 1, seq: 10 }, MessageCursor { node_id: 1, seq: 20 }];
    let l = turntf::client::login_request(&cfg, seen).unwrap();
    assert_eq!(l.user, Some(wire::UserRef { node_id: 4096, user_id: 1025 }));
    assert_eq!(l.login_name, "");
    assert_eq!(l.password, "$2b$12$hash");
    assert_eq!(l.seen_messages.iter().map(|c| c.seq).collect::<Vec<_>>(), vec![10, 20]);
    let cfg = Config::new_with_login_name("http://x", "alice", hashed_password("h"));
    let l = turntf::client::login_request(&cfg, Vec::new()).unwrap();
    assert_eq!(l.user, None);
    assert_eq!(l.login_name, "alice");
}

#[test]
fn websocket_urls() {
    assert_eq!(websocket_url("http://127.0.0.1:8080", false).unwrap(), "ws://127.0.0.1:8080/ws/client");
    assert_eq!(websocket_url("https://example.com/base/", true).unwrap(), "wss://example.com/base/ws/realtime");
    assert_eq!(websocket_url("ws://h/p?q=1#f", false).unwrap(), "ws://h/p/ws/client");
    let e = websocket_url("ftp://h", false).unwrap_err();
    assert_eq!(validation_message(e), "unsupported base URL scheme \"ftp\"");
    let e = websocket_url("not a url", false).unwrap_err();
    assert!(validation_message(e).starts_with("invalid base_url: "));
}

#[test]
fn read_steps() {
    assert!(matches!(read_step(Some(Ok(FrameKind::Binary)), false), ReadStep::Decode));
    assert!(matches!(read_step(Some(Ok(FrameKind::Ping)), false), ReadStep::Skip));
    assert!(matches!(read_step(None, true), ReadStep::Fail(Error::Closed(_))));
    match read_step(Some(Ok(FrameKind::Close)), false) {
        ReadStep::Fail(Error::Connection(c)) => {
            assert_eq!(c.op, "read");
            assert_eq!(c.cause, "websocket closed");
        }
        other => panic!("unexpected {other:?}"),
    }
    assert!(matches!(read_step(Some(Ok(FrameKind::Text)), false), ReadStep::Fail(Error::Protocol(_))));
}

#[test]
fn session_end_reports_disconnect() {
    assert_eq!(session_end(true, &Ok(())), None);
    let (pending, event) = session_end(false, &Ok(())).unwrap();
    assert_eq!(pending, Error::Disconnected(DisconnectedError));
    assert_eq!(event, ClientEvent::Disconnect(Error::Disconnected(DisconnectedError)));
    let e = Error::connection("read", "reset");
    let (_, event) = session_end(false, &Err(e.clone())).unwrap();
    assert_eq!(event, ClientEvent::Disconnect(e));
}

#[test]
fn rpc_outcomes() {
    assert!(matches!(rpc_outcome(3, 10000, RpcWait::Answered(Ok(RpcValue::Unit))), Ok(RpcValue::Unit)));
    assert!(matches!(rpc_outcome(3, 10000, RpcWait::Dropped), Err(Error::Disconnected(_))));
    match rpc_outcome(3, 10000, RpcWait::TimedOut) {
        Err(Error::Connection(c)) => {
            assert_eq!(c.op, "request 3");
            assert_eq!(c.cause, "timed out after 10000ms");
        }
        other => panic!("unexpected {other:?}"),
    }
}

#[test]
fn ping_steps() {
    assert!(matches!(ping_step(Ok(RpcValue::Unit)), PingStep::Continue));
    assert!(matches!(ping_step(Ok(RpcValue::Metrics("x".to_string()))), PingStep::Report(Error::Protocol(_))));
    assert!(matches!(ping_step(Err(Error::NotConnected(NotConnectedError))), PingStep::Stop));
    assert!(matches!(ping_step(Err(Error::connection("write", "x"))), PingStep::Report(_)));
}

#[test]
fn ids_count_up_from_one() {
    let mut ids = IdCounter::new();
    assert_eq!(ids.next(), 1);
    assert_eq!(ids.next(), 2);
    assert_eq!(ids.next(), 3);
}

#[test]
fn websocket_endpoints() {
    let (scheme, path) = websocket_endpoint("https", "/base//", true).unwrap();
    assert_eq!(scheme, "wss");
    assert_eq!(path, "/base/ws/realtime");
    let (scheme, path) = websocket_endpoint("http", "/", false).unwrap();
    assert_eq!(scheme, "ws");
    assert_eq!(path, "/ws/client");
    assert_eq!(
        validation_message(websocket_endpoint("ftp", "/", false).unwrap_err()),
        "unsupported base URL scheme \"ftp\""
    );
}
