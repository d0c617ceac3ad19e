//! The WebSocket client's decisions: its configuration, the connection state
//! (connect, close, reconnect), the reconnect back-off, and what to do with
//! each result the connection loop hands back. The connection itself, timers
//! and the cursor store are driven by the caller, which performs each action
//! these functions return and feeds the outcome back.

use vstd::prelude::*;

use crate::dispatch::RpcValue;
use crate::errors::{
    is_connection, is_protocol, is_validation, ClosedError, DisconnectedError, Error, ServerError,
};
use crate::mapping::{cursor_to_proto, login_info_from_proto, login_info_of, login_problem};
use crate::text::{decimal_nat, join2, join3, text_eq, u64_to_decimal};
use crate::wire;
use crate::password::PasswordInput;
use crate::text::{is_blank, lemma_trim_empty_iff_blank, trim_spec, trim_text};
use crate::types::{
    is_default_client_config, Attachment, ClientConfigDefaults, ClusterNode, Credentials,
    DeleteUserResult, Event, LoggedInUser, LoginInfo, Message, MessageCursor, OperationsStatus, Packet,
    RelayAccepted, ResolvedUserSessions, User, UserMetadata, UserMetadataScanResult,
};
use crate::validation::{normalize_login_name, validate_login_name, validate_positive_i64};

verus! {

/// Something the client reports to its subscribers.
#[derive(Clone, Debug, PartialEq, Eq)]
pub enum ClientEvent {
    /// The connection logged in.
    Login(LoginInfo),
    /// A persisted message arrived (after it was stored).
    Message(Message),
    /// A transient packet arrived.
    Packet(Packet),
    /// Something failed without ending the client.
    Error(Error),
    /// The connection ended.
    Disconnect(Error),
}

/// Client configuration. Durations are in milliseconds.
#[derive(Clone, Debug)]
pub struct Config {
    /// The server's base URL, such as `http://localhost:8080`.
    pub base_url: String,
    /// Node, user and password used to log in.
    pub credentials: Credentials,
    /// When set, log in by this name instead of node and user ID.
    pub login_name: Option<String>,
    /// Reconnect after the connection drops.
    pub reconnect: bool,
    /// First reconnect delay.
    pub initial_reconnect_delay: u64,
    /// Longest reconnect delay.
    pub max_reconnect_delay: u64,
    /// Time between two pings.
    pub ping_interval: u64,
    /// Time a request waits for its answer.
    pub request_timeout: u64,
    /// Acknowledge each stored message.
    pub ack_messages: bool,
    /// Log in for transient packets only.
    pub transient_only: bool,
    /// Use the realtime stream endpoint.
    pub realtime_stream: bool,
    /// Events buffered for a slow subscriber.
    pub event_channel_capacity: usize,
}

/// The configuration's tunables hold the documented defaults.
pub open spec fn has_default_tunables(c: Config) -> bool {
    &&& c.reconnect
    &&& c.initial_reconnect_delay == 1000
    &&& c.max_reconnect_delay == 30000
    &&& c.ping_interval == 30000
    &&& c.request_timeout == 10000
    &&& c.ack_messages
    &&& !c.transient_only
    &&& !c.realtime_stream
    &&& c.event_channel_capacity == 256
}

impl Config {
    /// A configuration that logs in by node and user ID, with default tunables.
    pub fn new(base_url: &str, credentials: Credentials) -> (r: Config)
        ensures
            r.base_url@ == base_url@,
            r.credentials == credentials,
            r.login_name is None,
            has_default_tunables(r),
    {
        let d = ClientConfigDefaults::default();
        Config {
            base_url: String::from_str(base_url),
            credentials,
            login_name: None,
            reconnect: d.reconnect,
            initial_reconnect_delay: d.initial_reconnect_delay,
            max_reconnect_delay: d.max_reconnect_delay,
            ping_interval: d.ping_interval,
            request_timeout: d.request_timeout,
            ack_messages: d.ack_messages,
            transient_only: d.transient_only,
            realtime_stream: d.realtime_stream,
            event_channel_capacity: d.event_channel_capacity,
        }
    }

    /// A configuration that logs in by login name, with node and user ID left
    /// at 0 and default tunables.
    pub fn new_with_login_name(base_url: &str, login_name: &str, password: PasswordInput) -> (r:
        Config)
        ensures
            r.base_url@ == base_url@,
            r.credentials.node_id == 0,
            r.credentials.user_id == 0,
            r.credentials.password == password,
            r.login_name matches Some(n) && n@ == login_name@,
            has_default_tunables(r),
    {
        let d = ClientConfigDefaults::default();
        Config {
            base_url: String::from_str(base_url),
            credentials: Credentials { node_id: 0, user_id: 0, password },
            login_name: Some(String::from_str(login_name)),
            reconnect: d.reconnect,
            initial_reconnect_delay: d.initial_reconnect_delay,
            max_reconnect_delay: d.max_reconnect_delay,
            ping_interval: d.ping_interval,
            request_timeout: d.request_timeout,
            ack_messages: d.ack_messages,
            transient_only: d.transient_only,
            realtime_stream: d.realtime_stream,
            event_channel_capacity: d.event_channel_capacity,
        }
    }
}

/// What is wrong with a configuration, if anything, in the order the checks run.
pub open spec fn config_problem(c: Config) -> Option<Seq<char>> {
    if is_blank(c.base_url@) {
        Some("base_url is required"@)
    } else if c.login_name is Some {
        if is_blank(c.login_name->0@) {
            Some("login_name is required"@)
        } else if c.credentials.password.spec_encoded().len() == 0 {
            Some("password is required"@)
        } else {
            None
        }
    } else if c.credentials.node_id <= 0 {
        Some("credentials.node_id is required"@)
    } else if c.credentials.user_id <= 0 {
        Some("credentials.user_id is required"@)
    } else if c.credentials.password.spec_encoded().len() == 0 {
        Some("password is required"@)
    } else {
        None
    }
}

/// Checks a configuration as a new client does: the base URL must not be blank;
/// a login name must not be blank and is kept trimmed; without one, node and
/// user ID must be positive; the password must not be empty. The event buffer
/// holds at least one event.
pub fn prepare_config(config: Config) -> (r: Result<Config, Error>)
    ensures
        match config_problem(config) {
            Some(m) => r matches Err(e) && is_validation(e, m),
            None => r matches Ok(c) && {
                &&& c.base_url == config.base_url
                &&& c.credentials == config.credentials
                &&& match config.login_name {
                    Some(n) => c.login_name matches Some(t) && t@ == trim_spec(n@),
                    None => c.login_name is None,
                }
                &&& c.reconnect == config.reconnect
                &&& c.initial_reconnect_delay == config.initial_reconnect_delay
                &&& c.max_reconnect_delay == config.max_reconnect_delay
                &&& c.ping_interval == config.ping_interval
                &&& c.request_timeout == config.request_timeout
                &&& c.ack_messages == config.ack_messages
                &&& c.transient_only == config.transient_only
                &&& c.realtime_stream == config.realtime_stream
                &&& c.event_channel_capacity == if config.event_channel_capacity == 0 {
                    1
                } else {
                    config.event_channel_capacity
                }
            },
        },
{
    let t = trim_text(config.base_url.as_str());
    proof {
        lemma_trim_empty_iff_blank(config.base_url@);
        reveal_strlit("login_name");
        reveal_strlit("login_name is required");
        reveal_strlit("credentials.node_id");
        reveal_strlit("credentials.node_id is required");
        reveal_strlit("credentials.user_id");
        reveal_strlit("credentials.user_id is required");
        reveal_strlit(" is required");
        assert("login_name"@ + " is required"@ =~= "login_name is required"@);
        assert("credentials.node_id"@ + " is required"@ =~= "credentials.node_id is required"@);
        assert("credentials.user_id"@ + " is required"@ =~= "credentials.user_id is required"@);
    }
    if t.unicode_len() == 0 {
        return Err(Error::validation("base_url is required"));
    }
    let login_name = match &config.login_name {
        Some(n) => {
            validate_login_name(n.as_str(), "login_name")?;
            Some(normalize_login_name(n.as_str()))
        },
        None => {
            validate_positive_i64(config.credentials.node_id, "credentials.node_id")?;
            validate_positive_i64(config.credentials.user_id, "credentials.user_id")?;
            None
        },
    };
    config.credentials.password.validate()?;
    let capacity = if config.event_channel_capacity == 0 {
        1
    } else {
        config.event_channel_capacity
    };
    Ok(
        Config {
            base_url: config.base_url,
            credentials: config.credentials,
            login_name,
            reconnect: config.reconnect,
            initial_reconnect_delay: config.initial_reconnect_delay,
            max_reconnect_delay: config.max_reconnect_delay,
            ping_interval: config.ping_interval,
            request_timeout: config.request_timeout,
            ack_messages: config.ack_messages,
            transient_only: config.transient_only,
            realtime_stream: config.realtime_stream,
            event_channel_capacity: capacity,
        },
    )
}

/// A copy of an error.
pub fn copy_error(e: &Error) -> (r: Error)
    ensures
        r == *e,
{
    match e {
        Error::Validation(v) => Error::Validation(
            crate::errors::ValidationError { message: v.message.clone() },
        ),
        Error::Closed(_) => Error::Closed(ClosedError),
        Error::NotConnected(_) => Error::NotConnected(crate::errors::NotConnectedError),
        Error::Disconnected(_) => Error::Disconnected(DisconnectedError),
        Error::Server(x) => Error::Server(
            crate::errors::ServerError {
                code: x.code.clone(),
                server_message: x.server_message.clone(),
                request_id: x.request_id,
            },
        ),
        Error::Protocol(p) => Error::Protocol(
            crate::errors::ProtocolError { protocol_message: p.protocol_message.clone() },
        ),
        Error::Connection(c) => Error::Connection(
            crate::errors::ConnectionError { op: c.op.clone(), cause: c.cause.clone() },
        ),
        Error::Store(x) => Error::Store(
            crate::errors::StoreError { op: x.op.clone(), message: x.message.clone() },
        ),
    }
}

/// The error of a closed client.
pub open spec fn closed_error() -> Error {
    Error::Closed(ClosedError)
}

/// Whether the connection loop should try again after `error`: not once the
/// client is closed, reconnecting was stopped or is off, nor after a close or
/// a refusal of the credentials.
pub open spec fn retry_allowed(
    closed: bool,
    stop_reconnect: bool,
    reconnect: bool,
    error: Error,
) -> bool {
    &&& !closed
    &&& !stop_reconnect
    &&& reconnect
    &&& !(error is Closed)
    &&& !(error matches Error::Server(s) && s.code@ == "unauthorized"@)
}

/// The client's connection state, shared by its callers and its connection loop.
#[derive(Debug)]
pub struct ConnectionState {
    /// `close()` was called; final.
    pub closed: bool,
    /// A connection is logged in.
    pub connected: bool,
    /// The server refused the credentials; do not reconnect.
    pub stop_reconnect: bool,
    /// Why the connection loop stopped, if it did.
    pub terminal_error: Option<Error>,
}

/// How a `connect()` call begins.
#[derive(Debug)]
pub enum ConnectStart {
    /// The client is closed.
    Refused(Error),
    /// Already connected; nothing to do.
    Connected,
    /// Make sure the connection loop runs, then wait.
    Start,
}

/// The state after `close()`.
pub open spec fn state_after_close(s: ConnectionState) -> ConnectionState {
    if s.closed {
        s
    } else {
        ConnectionState {
            closed: true,
            connected: false,
            stop_reconnect: s.stop_reconnect,
            terminal_error: Some(closed_error()),
        }
    }
}

/// What a `close()` call must do besides updating the state.
#[derive(Debug)]
pub struct CloseActions {
    /// The event to report, if any: a disconnect with the close error.
    pub disconnect: Option<ClientEvent>,
    /// The error every pending request fails with.
    pub fail_pending: Error,
}

/// What `close()` asks for in state `s`: a disconnect report only when `s`
/// is not closed yet; the pending requests fail with the close error.
pub open spec fn close_actions(s: ConnectionState) -> CloseActions {
    CloseActions {
        disconnect: if s.closed {
            None
        } else {
            Some(ClientEvent::Disconnect(closed_error()))
        },
        fail_pending: closed_error(),
    }
}

/// The state after `n` calls of `close()`.
pub open spec fn closed_times(s: ConnectionState, n: nat) -> ConnectionState
    decreases n,
{
    if n == 0 {
        s
    } else {
        state_after_close(closed_times(s, (n - 1) as nat))
    }
}

impl ConnectionState {
    /// A client that has never connected.
    pub fn new() -> (r: Self)
        ensures
            !r.closed,
            !r.connected,
            !r.stop_reconnect,
            r.terminal_error is None,
    {
        ConnectionState { closed: false, connected: false, stop_reconnect: false, terminal_error: None }
    }

    /// The first step of `connect()`.
    pub fn connect_start(&self) -> (r: ConnectStart)
        ensures
            self.closed ==> r == ConnectStart::Refused(closed_error()),
            !self.closed && self.connected ==> r is Connected,
            !self.closed && !self.connected ==> r is Start,
    {
        if self.closed {
            ConnectStart::Refused(Error::Closed(ClosedError))
        } else if self.connected {
            ConnectStart::Connected
        } else {
            ConnectStart::Start
        }
    }

    /// What a waiting `connect()` returns, if it is done: success once
    /// connected, the terminal error once the loop stopped, the close error
    /// once closed; `None` to keep waiting.
    pub fn connect_outcome(&self) -> (r: Option<Result<(), Error>>)
        ensures
            self.connected ==> r == Some(Ok::<(), Error>(())),
            !self.connected && self.terminal_error is Some ==> r == Some(
                Err::<(), Error>(self.terminal_error->0),
            ),
            !self.connected && self.terminal_error is None && self.closed ==> r == Some(
                Err::<(), Error>(closed_error()),
            ),
            !self.connected && self.terminal_error is None && !self.closed ==> r is None,
    {
        if self.connected {
            return Some(Ok(()));
        }
        match &self.terminal_error {
            Some(e) => {
                return Some(Err(copy_error(e)));
            },
            None => {},
        }
        if self.closed {
            return Some(Err(Error::Closed(ClosedError)));
        }
        None
    }

    /// A fresh start of the connection loop: not connected, reconnecting
    /// allowed, no terminal error. A close stays in force.
    pub fn restart(&mut self)
        ensures
            final(self).closed == old(self).closed,
            !final(self).connected,
            !final(self).stop_reconnect,
            final(self).terminal_error is None,
    {
        self.connected = false;
        self.stop_reconnect = false;
        self.terminal_error = None;
    }

    /// Closes the client and says what the call must do besides: every
    /// pending request fails with the close error and the event stream ends,
    /// on each call; only the call that closed the client reports a
    /// disconnect, with the close error. A second close changes nothing.
    pub fn close(&mut self) -> (r: CloseActions)
        ensures
            *final(self) == state_after_close(*old(self)),
            r == close_actions(*old(self)),
    {
        let first = if self.closed {
            false
        } else {
            self.closed = true;
            self.connected = false;
            self.terminal_error = Some(Error::Closed(ClosedError));
            true
        };
        CloseActions {
            disconnect: if first {
                Some(ClientEvent::Disconnect(Error::Closed(ClosedError)))
            } else {
                None
            },
            fail_pending: Error::Closed(ClosedError),
        }
    }

    /// Records whether a connection is logged in; logging in clears the terminal error.
    pub fn set_connected(&mut self, connected: bool)
        ensures
            final(self).closed == old(self).closed,
            final(self).stop_reconnect == old(self).stop_reconnect,
            final(self).connected == connected,
            final(self).terminal_error == if connected {
                None
            } else {
                old(self).terminal_error
            },
    {
        self.connected = connected;
        if connected {
            self.terminal_error = None;
        }
    }

    /// Records why the connection loop stopped.
    pub fn set_terminal_error(&mut self, error: Error)
        ensures
            final(self).closed == old(self).closed,
            final(self).stop_reconnect == old(self).stop_reconnect,
            !final(self).connected,
            final(self).terminal_error == Some(error),
    {
        self.connected = false;
        self.terminal_error = Some(error);
    }

    /// Whether the loop reconnects after `error`.
    pub fn should_retry(&self, reconnect: bool, error: &Error) -> (r: bool)
        ensures
            r == retry_allowed(self.closed, self.stop_reconnect, reconnect, *error),
    {
        if self.closed || self.stop_reconnect || !reconnect {
            return false;
        }
        match error {
            Error::Closed(_) => false,
            Error::Server(s) => !s.unauthorized(),
            _ => true,
        }
    }
}

/// Closing twice is closing once: the second close finds the client closed,
/// changes nothing and reports no new disconnect.
pub proof fn law_close_is_idempotent(s: ConnectionState)
    ensures
        state_after_close(s).closed,
        state_after_close(state_after_close(s)) == state_after_close(s),
{
}

/// Closing reports the disconnect once: over any number of `close()` calls
/// from any state, the call number `n` (from 0) reports `Disconnect(Closed)`
/// exactly when it is the first and the client was open; every call fails the
/// pending requests with the close error; the state after the first call is
/// the state after all of them.
pub proof fn law_close_reports_once(s: ConnectionState, n: nat)
    ensures
        close_actions(closed_times(s, n)).disconnect == if n == 0 && !s.closed {
            Some(ClientEvent::Disconnect(closed_error()))
        } else {
            None::<ClientEvent>
        },
        close_actions(closed_times(s, n)).fail_pending == closed_error(),
        n >= 1 ==> closed_times(s, n) == state_after_close(s),
    decreases n,
{
    if n >= 1 {
        law_close_reports_once(s, (n - 1) as nat);
    }
}

/// Once closed, a client stays closed: `connect()` is refused with the close
/// error and no error leads to a reconnect.
pub proof fn law_closed_client_refuses(s: ConnectionState, reconnect: bool, error: Error)
    requires
        s.closed,
    ensures
        !retry_allowed(s.closed, s.stop_reconnect, reconnect, error),
        state_after_close(s) == s,
{
}

// ----- reconnect back-off -----

/// Twice `d`, saturating at `u64::MAX`.
pub open spec fn doubled(d: u64) -> u64 {
    if 2 * d > u64::MAX {
        u64::MAX
    } else {
        (2 * d) as u64
    }
}

/// The delay after `delay`: doubled, at most `max`.
pub open spec fn next_delay(delay: u64, max: u64) -> u64 {
    if doubled(delay) < max {
        doubled(delay)
    } else {
        max
    }
}

/// The delay before the `k`-th retry of a run of failures, starting at `initial`.
pub open spec fn delay_after(initial: u64, max: u64, k: nat) -> u64
    decreases k,
{
    if k == 0 {
        initial
    } else {
        next_delay(delay_after(initial, max, (k - 1) as nat), max)
    }
}

/// The reconnect delay that follows `delay`: twice as long, at most `max`.
pub fn next_reconnect_delay(delay: u64, max: u64) -> (r: u64)
    ensures
        r == next_delay(delay, max),
{
    let d = if delay > u64::MAX / 2 {
        u64::MAX
    } else {
        delay * 2
    };
    if d < max {
        d
    } else {
        max
    }
}

/// After `k >= 1` failures in a row the delay is `initial * 2^k`, capped at `max`.
pub proof fn law_backoff_doubles_up_to_max(initial: u64, max: u64, k: nat)
    requires
        k >= 1,
    ensures
        delay_after(initial, max, k) == if initial * vstd::arithmetic::power2::pow2(k) < max {
            initial * vstd::arithmetic::power2::pow2(k)
        } else {
            max as int
        },
    decreases k,
{
    vstd::arithmetic::power2::lemma_pow2_unfold(k);
    let p = vstd::arithmetic::power2::pow2(k);
    let q = vstd::arithmetic::power2::pow2((k - 1) as nat);
    let iq = initial * q;
    assert(initial * p == 2 * iq) by (nonlinear_arith)
        requires
            p == 2 * q,
            iq == initial * q,
    ;
    assert(iq >= 0) by (nonlinear_arith)
        requires
            iq == initial * q,
    ;
    let prev = delay_after(initial, max, (k - 1) as nat);
    assert(delay_after(initial, max, k) == next_delay(prev, max));
    if k == 1 {
        assert(q == 1) by {
            vstd::arithmetic::power2::lemma_pow2(0);
            vstd::arithmetic::power::lemma_pow0(2);
        }
        assert(iq == initial) by (nonlinear_arith)
            requires
                q == 1,
                iq == initial * q,
        ;
        assert(prev == initial);
    } else {
        law_backoff_doubles_up_to_max(initial, max, (k - 1) as nat);
        assert(prev == if iq < max {
            iq
        } else {
            max as int
        });
        if iq >= max {
            assert(prev == max);
            assert(doubled(prev) >= max);
        }
    }
}

/// The delay never exceeds `max` after the first retry.
pub proof fn law_backoff_bounded(initial: u64, max: u64, k: nat)
    requires
        k >= 1,
    ensures
        delay_after(initial, max, k) <= max,
{
    law_backoff_doubles_up_to_max(initial, max, k);
}

/// What the connection loop does after a session ends.
#[derive(Debug)]
pub enum RunStep {
    /// The session ended cleanly: reset the delay and connect again.
    Reconnect,
    /// The session ended cleanly but the client is closed: record the close
    /// as terminal error and stop.
    StopClosed,
    /// Report `error`, wait `delay` ms, then connect again.
    RetryAfter { error: Error, delay: u64 },
    /// Fail every pending request with `error`, record it as terminal, stop.
    Stop { error: Error },
}

/// The connection loop's decision after a session ended with `outcome`, given
/// the current back-off `delay`, which it updates: reset to the initial delay
/// after a clean end, doubled (up to the maximum) after a retried failure.
pub fn run_step(cfg: &Config, state: &ConnectionState, delay: &mut u64, outcome: Result<(), Error>) -> (r:
    RunStep)
    ensures
        match outcome {
            Ok(()) => {
                &&& *final(delay) == cfg.initial_reconnect_delay
                &&& if state.closed {
                    r is StopClosed
                } else {
                    r is Reconnect
                }
            },
            Err(e) => if retry_allowed(state.closed, state.stop_reconnect, cfg.reconnect, e) {
                &&& r == RunStep::RetryAfter { error: e, delay: *old(delay) }
                &&& *final(delay) == next_delay(*old(delay), cfg.max_reconnect_delay)
            } else {
                &&& r == RunStep::Stop { error: e }
                &&& *final(delay) == *old(delay)
            },
        },
{
    match outcome {
        Ok(()) => {
            *delay = cfg.initial_reconnect_delay;
            if state.closed {
                RunStep::StopClosed
            } else {
                RunStep::Reconnect
            }
        },
        Err(e) => {
            if !state.should_retry(cfg.reconnect, &e) {
                return RunStep::Stop { error: e };
            }
            let current = *delay;
            *delay = next_reconnect_delay(current, cfg.max_reconnect_delay);
            RunStep::RetryAfter { error: e, delay: current }
        },
    }
}

// ----- request and session numbers -----

/// Hands out the numbers 1, 2, 3, ... in turn (wrapping past `u64::MAX`):
/// request IDs, and the IDs of successive sessions.
#[derive(Debug)]
pub struct IdCounter {
    last: u64,
}

impl IdCounter {
    /// The number handed out last; 0 before the first.
    pub closed spec fn spec_last(&self) -> u64 {
        self.last
    }

    /// A counter that has handed out nothing.
    pub fn new() -> (r: Self)
        ensures
            r.spec_last() == 0,
    {
        IdCounter { last: 0 }
    }

    /// The next number: one more than the last, wrapping to 0 after `u64::MAX`
    /// as an atomic counter does.
    pub fn next(&mut self) -> (id: u64)
        ensures
            id == if old(self).spec_last() == u64::MAX {
                0
            } else {
                old(self).spec_last() + 1
            },
            final(self).spec_last() == id,
    {
        self.last = self.last.wrapping_add(1);
        self.last
    }
}

// ----- one session -----

/// The login frame of a session: by login name when one is configured, else
/// by node and user ID; the password's wire value; the cursors already
/// confirmed; the transient-only flag. An empty password is refused.
pub fn login_request(cfg: &Config, seen: Vec<MessageCursor>) -> (r: Result<wire::LoginRequest, Error>)
    ensures
        cfg.credentials.password.spec_encoded().len() == 0 ==> (r matches Err(e) && is_validation(
            e,
            "password is required"@,
        )),
        cfg.credentials.password.spec_encoded().len() > 0 ==> (r matches Ok(l) && {
            &&& match cfg.login_name {
                Some(n) => l.user is None && l.login_name@ == n@,
                None => l.user == Some(
                    wire::UserRef {
                        node_id: cfg.credentials.node_id,
                        user_id: cfg.credentials.user_id,
                    },
                ) && l.login_name@.len() == 0,
            }
            &&& l.password@ == cfg.credentials.password.spec_encoded()
            &&& l.seen_messages@ == seen@.map_values(
                |c: MessageCursor| wire::MessageCursor { node_id: c.node_id, seq: c.seq },
            )
            &&& l.transient_only == cfg.transient_only
        }),
{
    let password = cfg.credentials.password.wire_value()?;
    let (user, login_name) = match &cfg.login_name {
        Some(n) => (None, n.clone()),
        None => (
            Some(
                wire::UserRef {
                    node_id: cfg.credentials.node_id,
                    user_id: cfg.credentials.user_id,
                },
            ),
            String::new(),
        ),
    };
    let mut seen_messages: Vec<wire::MessageCursor> = Vec::new();
    let ghost src = seen@;
    for c in it: seen
        invariant
            src == it.seq(),
            seen_messages@ == it.seq().take(it.index() as int).map_values(
                |c: MessageCursor| wire::MessageCursor { node_id: c.node_id, seq: c.seq },
            ),
    {
        let ghost cur = c;
        seen_messages.push(cursor_to_proto(&c));
        assert(it.seq().take(it.index() as int + 1) =~= it.seq().take(it.index() as int).push(cur));
    }
    assert(src.take(src.len() as int) =~= src);
    Ok(
        wire::LoginRequest {
            user,
            login_name,
            password: String::from_str(password),
            seen_messages,
            transient_only: cfg.transient_only,
        },
    )
}

/// Whether a server error refuses the credentials.
pub open spec fn is_unauthorized(code: Seq<char>) -> bool {
    code == "unauthorized"@
}

/// Reads the answer to the login frame. A login response gives the session's
/// login information; an error is returned as a server error, and when it
/// refuses the credentials the client stops reconnecting; anything else is a
/// protocol error.
pub fn expect_login(state: &mut ConnectionState, body: Option<wire::ServerBody>) -> (r: Result<
    LoginInfo,
    Error,
>)
    ensures
        final(state).closed == old(state).closed,
        final(state).connected == old(state).connected,
        final(state).terminal_error == old(state).terminal_error,
        match body {
            Some(wire::ServerBody::LoginResponse(resp)) => {
                &&& final(state).stop_reconnect == old(state).stop_reconnect
                &&& match login_problem(resp) {
                    Some(m) => r matches Err(e) && is_protocol(e, m),
                    None => r == Ok::<LoginInfo, Error>(login_info_of(resp)),
                }
            },
            Some(wire::ServerBody::Error { code, message, request_id }) => {
                &&& final(state).stop_reconnect == (old(state).stop_reconnect || is_unauthorized(code@))
                &&& r == Err::<LoginInfo, Error>(
                    Error::Server(ServerError { code, server_message: message, request_id }),
                )
            },
            _ => {
                &&& final(state).stop_reconnect == old(state).stop_reconnect
                &&& r matches Err(e) && is_protocol(e, "expected login_response or error"@)
            },
        },
{
    match body {
        Some(wire::ServerBody::LoginResponse(resp)) => login_info_from_proto(resp),
        Some(wire::ServerBody::Error { code, message, request_id }) => {
            let e = ServerError { code, server_message: message, request_id };
            if e.unauthorized() {
                state.stop_reconnect = true;
            }
            Err(Error::Server(e))
        },
        _ => Err(Error::protocol("expected login_response or error")),
    }
}

/// What arrived on the connection.
#[derive(Clone, Copy, Debug, PartialEq, Eq, Structural)]
pub enum FrameKind {
    Binary,
    Text,
    Ping,
    Pong,
    Close,
    Other,
}

/// What to do with what arrived.
#[derive(Debug)]
pub enum ReadStep {
    /// Decode the binary frame as a server envelope.
    Decode,
    /// Read the next frame.
    Skip,
    /// Reading ends with this error.
    Fail(Error),
}

/// The decision on one read: `None` when the stream ended, `Err` with the
/// transport's message when it failed. Once the client is closed, an ended or
/// failed stream reads as the close error.
pub fn read_step(frame: Option<Result<FrameKind, String>>, closed: bool) -> (r: ReadStep)
    ensures
        match frame {
            None => if closed {
                r == ReadStep::Fail(closed_error())
            } else {
                r matches ReadStep::Fail(e) && is_connection(e, "read"@, "websocket closed"@)
            },
            Some(Err(m)) => if closed {
                r == ReadStep::Fail(closed_error())
            } else {
                r matches ReadStep::Fail(e) && is_connection(e, "read"@, m@)
            },
            Some(Ok(k)) => match k {
                FrameKind::Binary => r is Decode,
                FrameKind::Ping | FrameKind::Pong => r is Skip,
                FrameKind::Close => if closed {
                    r == ReadStep::Fail(closed_error())
                } else {
                    r matches ReadStep::Fail(e) && is_connection(e, "read"@, "websocket closed"@)
                },
                _ => r matches ReadStep::Fail(e) && is_protocol(e, "invalid protobuf frame"@),
            },
        },
{
    match frame {
        None => {
            if closed {
                ReadStep::Fail(Error::Closed(ClosedError))
            } else {
                ReadStep::Fail(Error::connection("read", "websocket closed"))
            }
        },
        Some(Err(m)) => {
            if closed {
                ReadStep::Fail(Error::Closed(ClosedError))
            } else {
                ReadStep::Fail(Error::connection("read", m.as_str()))
            }
        },
        Some(Ok(k)) => match k {
            FrameKind::Binary => ReadStep::Decode,
            FrameKind::Ping | FrameKind::Pong => ReadStep::Skip,
            FrameKind::Close => {
                if closed {
                    ReadStep::Fail(Error::Closed(ClosedError))
                } else {
                    ReadStep::Fail(Error::connection("read", "websocket closed"))
                }
            },
            _ => ReadStep::Fail(Error::protocol("invalid protobuf frame")),
        },
    }
}

/// The error for a binary frame that does not decode.
pub fn undecodable_frame() -> (r: Error)
    ensures
        is_protocol(r, "invalid protobuf frame"@),
{
    Error::protocol("invalid protobuf frame")
}

/// What a session's end asks for: when the client is not closed, fail the
/// pending requests with the disconnect error and report a disconnect carrying
/// the read loop's error (or the disconnect error after a clean end).
pub fn session_end(closed: bool, read_result: &Result<(), Error>) -> (r: Option<(Error, ClientEvent)>)
    ensures
        closed ==> r is None,
        !closed ==> r == Some(
            (
                Error::Disconnected(DisconnectedError),
                ClientEvent::Disconnect(
                    match read_result {
                        Ok(()) => Error::Disconnected(DisconnectedError),
                        Err(e) => *e,
                    },
                ),
            ),
        ),
{
    if closed {
        return None;
    }
    let e = match read_result {
        Ok(()) => Error::Disconnected(DisconnectedError),
        Err(e) => copy_error(e),
    };
    Some((Error::Disconnected(DisconnectedError), ClientEvent::Disconnect(e)))
}

/// How waiting for an answer ended.
#[derive(Debug)]
pub enum RpcWait {
    /// The answer arrived.
    Answered(Result<RpcValue, Error>),
    /// The request was dropped without an answer (the connection went away).
    Dropped,
    /// The timeout passed.
    TimedOut,
}

/// The result of request `request_id`: its answer, the disconnect error when it
/// was dropped, or a connection error naming the request after a timeout.
pub fn rpc_outcome(request_id: u64, timeout_ms: u64, waited: RpcWait) -> (r: Result<RpcValue, Error>)
    ensures
        match waited {
            RpcWait::Answered(a) => r == a,
            RpcWait::Dropped => r == Err::<RpcValue, Error>(Error::Disconnected(DisconnectedError)),
            RpcWait::TimedOut => r matches Err(e) && is_connection(
                e,
                "request "@ + decimal_nat(request_id as nat),
                "timed out after "@ + decimal_nat(timeout_ms as nat) + "ms"@,
            ),
        },
{
    match waited {
        RpcWait::Answered(a) => a,
        RpcWait::Dropped => Err(Error::Disconnected(DisconnectedError)),
        RpcWait::TimedOut => {
            let id = u64_to_decimal(request_id);
            let op = join2("request ", id.as_str());
            let ms = u64_to_decimal(timeout_ms);
            let cause = join3("timed out after ", ms.as_str(), "ms");
            Err(Error::connection(op.as_str(), cause.as_str()))
        },
    }
}

/// What the ping loop does after one ping.
#[derive(Debug)]
pub enum PingStep {
    /// Wait and ping again.
    Continue,
    /// Report this error, then wait and ping again.
    Report(Error),
    /// The connection is gone; stop pinging.
    Stop,
}

/// The ping loop's decision on a ping's result.
pub fn ping_step(result: Result<RpcValue, Error>) -> (r: PingStep)
    ensures
        match result {
            Ok(RpcValue::Unit) => r is Continue,
            Ok(_) => r matches PingStep::Report(e) && is_protocol(e, "missing pong response"@),
            Err(e) => if e is NotConnected || e is Closed || e is Disconnected {
                r is Stop
            } else {
                r == PingStep::Report(e)
            },
        },
{
    match result {
        Ok(RpcValue::Unit) => PingStep::Continue,
        Ok(_) => PingStep::Report(Error::protocol("missing pong response")),
        Err(Error::NotConnected(_)) | Err(Error::Closed(_)) | Err(Error::Disconnected(_)) => PingStep::Stop,
        Err(e) => PingStep::Report(e),
    }
}

// ----- the WebSocket endpoint -----

/// What `url::Url::parse` makes of a text: its scheme and path, or the parse
/// error's message.
pub uninterp spec fn url_parts(base: Seq<char>) -> Result<(Seq<char>, Seq<char>), Seq<char>>;

/// A character `url` keeps in a parsed scheme: lower-case ASCII letters,
/// digits, `+`, `-` and `.`.
pub open spec fn is_scheme_char(c: char) -> bool {
    ('a' <= c && c <= 'z') || ('0' <= c && c <= '9') || c == '+' || c == '-' || c == '.'
}

/// `url::Url::parse(base)`, then `scheme()` and `path()`. The parser lower-cases
/// the scheme and keeps only the characters above, so `{:?}` prints it between
/// plain double quotes.
#[verifier::external_body]
fn parse_url_parts(base: &str) -> (r: Result<(String, String), String>)
    ensures
        match r {
            Ok((s, p)) => url_parts(base@) == Ok::<(Seq<char>, Seq<char>), Seq<char>>((s@, p@))
                && forall|i: int| 0 <= i < s@.len() ==> is_scheme_char(#[trigger] s@[i]),
            Err(m) => url_parts(base@) == Err::<(Seq<char>, Seq<char>), Seq<char>>(m@),
        },
{
    match url::Url::parse(base) {
        Ok(u) => Ok((u.scheme().to_string(), u.path().to_string())),
        Err(e) => Err(e.to_string()),
    }
}

/// The text of the URL parsed from `base` after setting its scheme and path
/// and clearing its query and fragment.
pub uninterp spec fn url_rebuilt(base: Seq<char>, scheme: Seq<char>, path: Seq<char>) -> Seq<char>;

/// `url::Url::parse(base)`, then `set_scheme(scheme)`, `set_path(path)`,
/// `set_query(None)`, `set_fragment(None)` and `to_string()`.
#[verifier::external_body]
fn rebuild_url(base: &str, scheme: &str, path: &str) -> (r: String)
    requires
        url_parts(base@) is Ok,
    ensures
        r@ == url_rebuilt(base@, scheme@, path@),
{
    match url::Url::parse(base) {
        Ok(mut u) => {
            let _ = u.set_scheme(scheme);
            u.set_path(path);
            u.set_query(None);
            u.set_fragment(None);
            u.to_string()
        },
        Err(_) => String::new(),
    }
}

/// The WebSocket scheme for a base URL scheme: `http` becomes `ws`, `https`
/// becomes `wss`, `ws` and `wss` stay; other schemes have none.
pub open spec fn websocket_scheme(s: Seq<char>) -> Option<Seq<char>> {
    if s == "http"@ || s == "ws"@ {
        Some("ws"@)
    } else if s == "https"@ || s == "wss"@ {
        Some("wss"@)
    } else {
        None
    }
}

/// `p` without its trailing `/` characters.
pub open spec fn without_trailing_slashes(p: Seq<char>) -> Seq<char>
    decreases p.len(),
{
    if p.len() > 0 && p.last() == '/' {
        without_trailing_slashes(p.drop_last())
    } else {
        p
    }
}

/// The endpoint's path: `/ws/realtime` or `/ws/client` after the base path.
pub open spec fn websocket_path(base_path: Seq<char>, realtime: bool) -> Seq<char> {
    without_trailing_slashes(base_path) + if realtime {
        "/ws/realtime"@
    } else {
        "/ws/client"@
    }
}

/// `p` with its trailing `/` characters removed.
pub fn trim_trailing_slashes(p: &str) -> (r: String)
    ensures
        r@ == without_trailing_slashes(p@),
{
    let mut n = p.unicode_len();
    assert(p@.take(n as int) =~= p@);
    while n > 0 && p.get_char(n - 1) == '/'
        invariant
            n <= p@.len(),
            without_trailing_slashes(p@.take(n as int)) == without_trailing_slashes(p@),
        decreases n,
    {
        assert(p@.take(n as int).drop_last() =~= p@.take(n - 1));
        n = n - 1;
    }
    assert(p@.take(n as int) =~= p@.subrange(0, n as int));
    String::from_str(p.substring_char(0, n))
}

/// The WebSocket scheme and path for a base URL's scheme and path: `http` and
/// `ws` give `ws`, `https` and `wss` give `wss`, any other scheme is refused;
/// the path loses its trailing slashes and gets `/ws/client` (or
/// `/ws/realtime`) appended.
pub fn websocket_endpoint(scheme: &str, path: &str, realtime: bool) -> (r: Result<(String, String), Error>)
    ensures
        match websocket_scheme(scheme@) {
            None => r matches Err(e) && is_validation(
                e,
                "unsupported base URL scheme \""@ + scheme@ + "\""@,
            ),
            Some(ws) => r matches Ok((s, p)) && s@ == ws && p@ == websocket_path(path@, realtime),
        },
{
    proof {
        reveal_strlit("http");
        reveal_strlit("https");
        reveal_strlit("ws");
        reveal_strlit("wss");
    }
    let ws = if text_eq(scheme, "http") || text_eq(scheme, "ws") {
        "ws"
    } else if text_eq(scheme, "https") || text_eq(scheme, "wss") {
        "wss"
    } else {
        let msg = join3("unsupported base URL scheme \"", scheme, "\"");
        return Err(Error::validation(msg.as_str()));
    };
    let base_path = trim_trailing_slashes(path);
    let suffix = if realtime {
        "/ws/realtime"
    } else {
        "/ws/client"
    };
    let full = join2(base_path.as_str(), suffix);
    Ok((String::from_str(ws), full))
}

/// The WebSocket URL of a server: the base URL with its scheme switched to
/// `ws`/`wss`, `/ws/client` (or `/ws/realtime`) appended to its path without
/// trailing slashes, and no query or fragment. A base URL that does not parse,
/// or whose scheme is none of `http`, `https`, `ws`, `wss`, is refused.
pub fn websocket_url(base: &str, realtime: bool) -> (r: Result<String, Error>)
    ensures
        match url_parts(base@) {
            Err(m) => r matches Err(e) && is_validation(e, "invalid base_url: "@ + m),
            Ok((s, p)) => match websocket_scheme(s) {
                None => r matches Err(e) && is_validation(
                    e,
                    "unsupported base URL scheme \""@ + s + "\""@,
                ),
                Some(ws) => r matches Ok(u) && u@ == url_rebuilt(base@, ws, websocket_path(p, realtime)),
            },
        },
{
    let (scheme, path) = match parse_url_parts(base) {
        Ok(parts) => parts,
        Err(m) => {
            let msg = join2("invalid base_url: ", m.as_str());
            return Err(Error::validation(msg.as_str()));
        },
    };
    let (ws, full) = websocket_endpoint(scheme.as_str(), path.as_str(), realtime)?;
    Ok(rebuild_url(base, ws.as_str(), full.as_str()))
}

/// The WebSocket endpoint: `http` and `ws` map to `ws`, `https` and `wss` to
/// `wss`, no other scheme has one; the path is the base path without trailing
/// slashes followed by `/ws/client`, or `/ws/realtime` for the realtime stream.
pub proof fn law_websocket_endpoint(s: Seq<char>, base_path: Seq<char>)
    ensures
        websocket_scheme("http"@) == Some("ws"@),
        websocket_scheme("ws"@) == Some("ws"@),
        websocket_scheme("https"@) == Some("wss"@),
        websocket_scheme("wss"@) == Some("wss"@),
        s != "http"@ && s != "ws"@ && s != "https"@ && s != "wss"@ ==> websocket_scheme(s) is None,
        websocket_path(base_path, false) == without_trailing_slashes(base_path) + "/ws/client"@,
        websocket_path(base_path, true) == without_trailing_slashes(base_path) + "/ws/realtime"@,
        without_trailing_slashes(base_path).len() == 0 || without_trailing_slashes(base_path).last() != '/',
        base_path.len() == 0 || base_path.last() != '/' ==> without_trailing_slashes(base_path) == base_path,
    decreases base_path.len(),
{
    reveal_strlit("http");
    reveal_strlit("https");
    reveal_strlit("ws");
    reveal_strlit("wss");
    assert("https"@.len() == 5 && "http"@.len() == 4 && "ws"@.len() == 2);
    assert("https"@ != "http"@ && "https"@ != "ws"@);
    if base_path.len() > 0 && base_path.last() == '/' {
        law_websocket_endpoint(s, base_path.drop_last());
    }
}

} // verus!
