//! Point-to-point relay connections carried in transient packets: the frame
//! types, the connection configuration, and the protocol state of one
//! connection (open/close handshake, ordered receive window, sliding send
//! window with cumulative ACKs and retransmission).

use vstd::prelude::*;

use std::collections::HashMap;

use crate::types::{copy_session_ref, DeliveryMode, ResolvedSession, SessionRef};

verus! {

broadcast use vstd::std_specs::hash::group_hash_axioms;

/// How much a relay connection guarantees.
#[derive(Clone, Copy, Debug, Default, PartialEq, Eq, Structural)]
pub enum Reliability {
    /// No ACK, no retransmission, no ordering.
    BestEffort,
    /// ACK and retransmission, no de-duplication or ordering.
    #[default]
    AtLeastOnce,
    /// ACK, retransmission, de-duplication and strict ordering.
    ReliableOrdered,
}

/// Where a relay connection stands.
#[derive(Clone, Copy, Debug, Default, PartialEq, Eq, Structural)]
pub enum RelayState {
    /// Not opened yet, or closed.
    #[default]
    Closed,
    /// OPEN sent, waiting for OPEN_ACK.
    Opening,
    /// Established.
    Open,
    /// CLOSE sent.
    Closing,
}

/// The kind of a relay frame.
#[derive(Clone, Copy, Debug, PartialEq, Eq, Structural)]
pub enum RelayKind {
    Unspecified,
    Open,
    OpenAck,
    Data,
    Ack,
    Close,
    Ping,
    Error,
}

/// The wire number of a frame kind.
pub open spec fn relay_kind_code(kind: RelayKind) -> i32 {
    match kind {
        RelayKind::Unspecified => 0,
        RelayKind::Open => 1,
        RelayKind::OpenAck => 2,
        RelayKind::Data => 3,
        RelayKind::Ack => 4,
        RelayKind::Close => 5,
        RelayKind::Ping => 6,
        RelayKind::Error => 7,
    }
}

/// The frame kind a wire number stands for; unknown numbers are `Unspecified`.
pub open spec fn relay_kind_of_code(code: i32) -> RelayKind {
    if code == 1 {
        RelayKind::Open
    } else if code == 2 {
        RelayKind::OpenAck
    } else if code == 3 {
        RelayKind::Data
    } else if code == 4 {
        RelayKind::Ack
    } else if code == 5 {
        RelayKind::Close
    } else if code == 6 {
        RelayKind::Ping
    } else if code == 7 {
        RelayKind::Error
    } else {
        RelayKind::Unspecified
    }
}

/// The wire number of a frame kind.
pub fn relay_kind_to_proto(kind: RelayKind) -> (r: i32)
    ensures
        r == relay_kind_code(kind),
{
    match kind {
        RelayKind::Open => 1,
        RelayKind::OpenAck => 2,
        RelayKind::Data => 3,
        RelayKind::Ack => 4,
        RelayKind::Close => 5,
        RelayKind::Ping => 6,
        RelayKind::Error => 7,
        RelayKind::Unspecified => 0,
    }
}

/// The frame kind of a wire number.
pub fn relay_kind_from_proto(code: i32) -> (r: RelayKind)
    ensures
        r == relay_kind_of_code(code),
{
    if code == 1 {
        RelayKind::Open
    } else if code == 2 {
        RelayKind::OpenAck
    } else if code == 3 {
        RelayKind::Data
    } else if code == 4 {
        RelayKind::Ack
    } else if code == 5 {
        RelayKind::Close
    } else if code == 6 {
        RelayKind::Ping
    } else if code == 7 {
        RelayKind::Error
    } else {
        RelayKind::Unspecified
    }
}

/// Decoding the wire number of a kind gives the kind back.
pub proof fn law_relay_kind_round_trip(kind: RelayKind)
    ensures
        relay_kind_of_code(relay_kind_code(kind)) == kind,
{
}

/// Configuration of one relay connection.
#[derive(Clone, Debug)]
pub struct RelayConfig {
    /// Guarantee level; `ReliableOrdered` by default.
    pub reliability: Reliability,
    /// Most frames in flight without ACK; 16 by default. Ignored by `BestEffort`.
    pub window_size: u64,
    /// Wait for OPEN_ACK, in milliseconds; 10000 by default.
    pub open_timeout_ms: u64,
    /// Wait for a CLOSE to be confirmed, in milliseconds; 5000 by default.
    pub close_timeout_ms: u64,
    /// Wait for an ACK before retransmitting, in milliseconds; 3000 by default.
    pub ack_timeout_ms: u64,
    /// Retransmission rounds without progress before giving up; 5 by default.
    pub max_retransmits: u32,
    /// Idle time before disconnecting, in milliseconds; 0 (never) by default.
    pub idle_timeout_ms: u64,
    /// Wait for send-buffer room, in milliseconds; 0 (forever) by default.
    pub send_timeout_ms: u64,
    /// Wait for incoming data, in milliseconds; 0 (forever) by default.
    pub receive_timeout_ms: u64,
    /// Send buffer in bytes; 65536 by default.
    pub send_buffer_size: usize,
    /// Delivery mode of the carrying packets; `RouteRetry` by default.
    pub delivery_mode: DeliveryMode,
}

/// The documented defaults of a relay configuration.
pub open spec fn is_default_relay_config(c: RelayConfig) -> bool {
    &&& c.reliability == Reliability::ReliableOrdered
    &&& c.window_size == 16
    &&& c.open_timeout_ms == 10000
    &&& c.close_timeout_ms == 5000
    &&& c.ack_timeout_ms == 3000
    &&& c.max_retransmits == 5
    &&& c.idle_timeout_ms == 0
    &&& c.send_timeout_ms == 0
    &&& c.receive_timeout_ms == 0
    &&& c.send_buffer_size == 65536
    &&& c.delivery_mode == DeliveryMode::RouteRetry
}

impl Default for RelayConfig {
    fn default() -> (r: Self)
        ensures
            is_default_relay_config(r),
    {
        RelayConfig {
            reliability: Reliability::ReliableOrdered,
            window_size: 16,
            open_timeout_ms: 10000,
            close_timeout_ms: 5000,
            ack_timeout_ms: 3000,
            max_retransmits: 5,
            idle_timeout_ms: 0,
            send_timeout_ms: 0,
            receive_timeout_ms: 0,
            send_buffer_size: 65536,
            delivery_mode: DeliveryMode::RouteRetry,
        }
    }
}

impl RelayConfig {
    /// A builder starting from the defaults.
    pub fn builder() -> (r: RelayConfigBuilder)
        ensures
            is_default_relay_config(r.config),
    {
        RelayConfigBuilder { config: RelayConfig::default() }
    }
}

/// Builds a `RelayConfig` by chained setters.
#[derive(Clone, Debug)]
pub struct RelayConfigBuilder {
    pub config: RelayConfig,
}

impl Default for RelayConfigBuilder {
    fn default() -> (r: Self)
        ensures
            is_default_relay_config(r.config),
    {
        RelayConfigBuilder { config: RelayConfig::default() }
    }
}

impl RelayConfigBuilder {
    /// Sets the reliability level.
    pub fn reliability(self, v: Reliability) -> (r: Self)
        ensures
            r.config == (RelayConfig { reliability: v, ..self.config }),
    {
        let mut b = self;
        b.config.reliability = v;
        b
    }

    /// Sets the window size.
    pub fn window_size(self, v: u64) -> (r: Self)
        ensures
            r.config == (RelayConfig { window_size: v, ..self.config }),
    {
        let mut b = self;
        b.config.window_size = v;
        b
    }

    /// Sets the OPEN timeout.
    pub fn open_timeout_ms(self, v: u64) -> (r: Self)
        ensures
            r.config == (RelayConfig { open_timeout_ms: v, ..self.config }),
    {
        let mut b = self;
        b.config.open_timeout_ms = v;
        b
    }

    /// Sets the ACK timeout.
    pub fn ack_timeout_ms(self, v: u64) -> (r: Self)
        ensures
            r.config == (RelayConfig { ack_timeout_ms: v, ..self.config }),
    {
        let mut b = self;
        b.config.ack_timeout_ms = v;
        b
    }

    /// Sets the retransmission limit.
    pub fn max_retransmits(self, v: u32) -> (r: Self)
        ensures
            r.config == (RelayConfig { max_retransmits: v, ..self.config }),
    {
        let mut b = self;
        b.config.max_retransmits = v;
        b
    }

    /// Sets the idle timeout; 0 disables it.
    pub fn idle_timeout_ms(self, v: u64) -> (r: Self)
        ensures
            r.config == (RelayConfig { idle_timeout_ms: v, ..self.config }),
    {
        let mut b = self;
        b.config.idle_timeout_ms = v;
        b
    }

    /// Sets the send timeout; 0 disables it.
    pub fn send_timeout_ms(self, v: u64) -> (r: Self)
        ensures
            r.config == (RelayConfig { send_timeout_ms: v, ..self.config }),
    {
        let mut b = self;
        b.config.send_timeout_ms = v;
        b
    }

    /// Sets the receive timeout; 0 disables it.
    pub fn receive_timeout_ms(self, v: u64) -> (r: Self)
        ensures
            r.config == (RelayConfig { receive_timeout_ms: v, ..self.config }),
    {
        let mut b = self;
        b.config.receive_timeout_ms = v;
        b
    }

    /// Sets the delivery mode of the carrying packets.
    pub fn delivery_mode(self, v: DeliveryMode) -> (r: Self)
        ensures
            r.config == (RelayConfig { delivery_mode: v, ..self.config }),
    {
        let mut b = self;
        b.config.delivery_mode = v;
        b
    }

    /// The configuration built so far.
    pub fn build(self) -> (r: RelayConfig)
        ensures
            r == self.config,
    {
        self.config
    }
}

/// One relay frame.
#[derive(Clone, Debug)]
pub struct RelayEnvelope {
    pub relay_id: String,
    pub kind: RelayKind,
    pub sender_session: SessionRef,
    pub target_session: SessionRef,
    pub seq: u64,
    pub ack_seq: u64,
    pub payload: Vec<u8>,
    pub sent_at_ms: i64,
}

/// A relay-level failure: a code from the constants below and a message.
#[derive(Clone, Debug)]
pub struct RelayError {
    pub code: String,
    pub message: String,
}

impl RelayError {
    /// A relay error with the given code and message.
    pub fn new(code: &str, message: &str) -> (r: Self)
        ensures
            r.code@ == code@,
            r.message@ == message@,
    {
        RelayError { code: String::from_str(code), message: String::from_str(message) }
    }

    /// The error's text: `relay: CODE: MESSAGE`.
    pub fn describe(&self) -> (r: String)
        ensures
            r@ == "relay: "@ + self.code@ + ": "@ + self.message@,
    {
        crate::text::join4("relay: ", self.code.as_str(), ": ", self.message.as_str())
    }
}

pub const RELAY_ERROR_OPEN_TIMEOUT: &'static str = "open_timeout";
pub const RELAY_ERROR_ACK_TIMEOUT: &'static str = "ack_timeout";
pub const RELAY_ERROR_MAX_RETRANSMIT: &'static str = "max_retransmit";
pub const RELAY_ERROR_IDLE_TIMEOUT: &'static str = "idle_timeout";
pub const RELAY_ERROR_REMOTE_CLOSE: &'static str = "remote_close";
pub const RELAY_ERROR_CLIENT_CLOSED: &'static str = "client_closed";
pub const RELAY_ERROR_PROTOCOL: &'static str = "protocol_error";
pub const RELAY_ERROR_DUPLICATE_OPEN: &'static str = "duplicate_open";
pub const RELAY_ERROR_NOT_CONNECTED: &'static str = "not_connected";
pub const RELAY_ERROR_SEND_TIMEOUT: &'static str = "send_timeout";
pub const RELAY_ERROR_RECEIVE_TIMEOUT: &'static str = "receive_timeout";

/// Copies a byte buffer.
pub fn clone_bytes(v: &Vec<u8>) -> (r: Vec<u8>)
    ensures
        r@ == v@,
{
    let r = v.clone();
    assert(r@ =~= v@);
    r
}

/// What a received DATA frame yields: payloads to hand to the reader, in order,
/// and the sequence number to acknowledge, if any.
#[derive(Debug)]
pub struct DataOutcome {
    pub deliver: Vec<Vec<u8>>,
    pub ack_seq: Option<u64>,
}

/// The payloads of a list of buffers.
pub open spec fn payloads(v: Seq<Vec<u8>>) -> Seq<Seq<u8>> {
    v.map_values(|b: Vec<u8>| b@)
}

/// The sequence numbers `from..to` (exclusive), as a set.
pub open spec fn seq_range(from: int, to: int) -> Set<u64> {
    Set::new(|k: u64| from <= k < to)
}

/// One step of the ordered receiver: DATA `seq` carrying `payload` moves the
/// receiver from (`old_exp`, `old_buf`) to (`new_exp`, `new_buf`) and hands out
/// `deliver`. The expected frame is delivered together with the run of buffered
/// frames that follows it; a frame ahead of the expected one but inside the
/// window is buffered; anything else (a duplicate or a frame beyond the window)
/// changes nothing.
pub open spec fn ordered_step(
    old_exp: u64,
    old_buf: Map<u64, Seq<u8>>,
    window: u64,
    seq: u64,
    payload: Seq<u8>,
    new_exp: u64,
    new_buf: Map<u64, Seq<u8>>,
    deliver: Seq<Seq<u8>>,
) -> bool {
    if seq == old_exp {
        &&& deliver.len() >= 1
        &&& new_exp == old_exp + deliver.len()
        &&& deliver[0] == payload
        &&& forall|i: int|
            1 <= i < deliver.len() ==> old_buf.contains_key((old_exp + i) as u64)
                && #[trigger] deliver[i] == old_buf[(old_exp + i) as u64]
        &&& !old_buf.contains_key(new_exp)
        &&& new_buf == old_buf.remove_keys(seq_range(old_exp + 1, new_exp as int))
    } else if seq > old_exp && seq - old_exp < window {
        &&& new_exp == old_exp
        &&& deliver.len() == 0
        &&& new_buf == old_buf.insert(seq, payload)
    } else {
        &&& new_exp == old_exp
        &&& deliver.len() == 0
        &&& new_buf == old_buf
    }
}

/// Whether the ordered receiver delivers or buffers DATA `seq` rather than
/// dropping it. Past `u64::MAX` no expected number exists, so a kept frame must
/// be numbered below it.
pub open spec fn ordered_keeps(expected: u64, window: u64, seq: u64) -> bool {
    seq == expected || (seq > expected && seq - expected < window)
}

/// Every buffered frame carries what the sender put under its number.
pub open spec fn buffer_follows(buf: Map<u64, Seq<u8>>, src: spec_fn(u64) -> Seq<u8>) -> bool {
    forall|k: u64| #[trigger] buf.contains_key(k) ==> buf[k] == src(k)
}

/// The frames `from..to` of the sender's stream, in order.
pub open spec fn source_range(src: spec_fn(u64) -> Seq<u8>, from: int, to: int) -> Seq<Seq<u8>> {
    Seq::new((to - from) as nat, |i: int| src((from + i) as u64))
}

/// Ordered receive, one step: when the sender's stream is `src` (each number
/// always carries the same payload), the receiver hands out exactly the stream's
/// frames from the old expected number up to the new one, in order, and its
/// buffer keeps agreeing with the stream.
pub proof fn law_ordered_step_follows_source(
    old_exp: u64,
    old_buf: Map<u64, Seq<u8>>,
    window: u64,
    seq: u64,
    payload: Seq<u8>,
    new_exp: u64,
    new_buf: Map<u64, Seq<u8>>,
    deliver: Seq<Seq<u8>>,
    src: spec_fn(u64) -> Seq<u8>,
)
    requires
        ordered_step(old_exp, old_buf, window, seq, payload, new_exp, new_buf, deliver),
        buffer_follows(old_buf, src),
        payload == src(seq),
    ensures
        old_exp <= new_exp,
        deliver == source_range(src, old_exp as int, new_exp as int),
        buffer_follows(new_buf, src),
{
    if seq == old_exp {
        assert forall|i: int| 0 <= i < deliver.len() implies #[trigger] deliver[i] == src(
            (old_exp + i) as u64,
        ) by {
            if i >= 1 {
                assert(deliver[i] == old_buf[(old_exp + i) as u64]);
                assert(old_buf.contains_key((old_exp + i) as u64));
            }
        }
        assert(deliver =~= source_range(src, old_exp as int, new_exp as int));
    } else if seq > old_exp && seq - old_exp < window {
        assert(deliver =~= source_range(src, old_exp as int, new_exp as int));
    } else {
        assert(deliver =~= source_range(src, old_exp as int, new_exp as int));
    }
}

/// Ordered receive over any run of DATA frames: when every frame carries what
/// the sender put under its number, everything the receiver hands out, in
/// order, is the sender's stream from the first expected number on, each frame
/// once and none skipped.
pub proof fn law_ordered_delivery(
    window: u64,
    exps: Seq<u64>,
    bufs: Seq<Map<u64, Seq<u8>>>,
    frames: Seq<(u64, Seq<u8>)>,
    delivers: Seq<Seq<Seq<u8>>>,
    src: spec_fn(u64) -> Seq<u8>,
)
    requires
        exps.len() == frames.len() + 1,
        bufs.len() == frames.len() + 1,
        delivers.len() == frames.len(),
        forall|i: int|
            0 <= i < frames.len() ==> ordered_step(
                exps[i],
                bufs[i],
                window,
                (#[trigger] frames[i]).0,
                frames[i].1,
                exps[i + 1],
                bufs[i + 1],
                delivers[i],
            ),
        forall|i: int| 0 <= i < frames.len() ==> (#[trigger] frames[i]).1 == src(frames[i].0),
        buffer_follows(bufs[0], src),
    ensures
        exps[0] <= exps.last(),
        delivers.flatten() == source_range(src, exps[0] as int, exps.last() as int),
        buffer_follows(bufs.last(), src),
    decreases frames.len(),
{
    broadcast use Seq::lemma_flatten_push;

    let n = frames.len();
    if n == 0 {
        assert(delivers =~= Seq::<Seq<Seq<u8>>>::empty());
        assert(source_range(src, exps[0] as int, exps.last() as int) =~= Seq::<Seq<u8>>::empty());
    } else {
        let m = n - 1;
        law_ordered_delivery(
            window,
            exps.take(m + 1),
            bufs.take(m + 1),
            frames.take(m),
            delivers.take(m),
            src,
        );
        let f = frames[m];
        assert(ordered_step(exps[m], bufs[m], window, f.0, f.1, exps[m + 1], bufs[m + 1], delivers[m]));
        law_ordered_step_follows_source(
            exps[m],
            bufs[m],
            window,
            f.0,
            f.1,
            exps[m + 1],
            bufs[m + 1],
            delivers[m],
            src,
        );
        assert(delivers =~= delivers.take(m).push(delivers[m]));
        assert(delivers.take(m).push(delivers[m]).flatten() =~= delivers.take(m).flatten()
            + delivers[m]);
        assert(source_range(src, exps[0] as int, exps[m] as int) + source_range(
            src,
            exps[m] as int,
            exps[m + 1] as int,
        ) =~= source_range(src, exps[0] as int, exps[m + 1] as int));
    }
}

/// The state after OPEN_ACK: only an opening connection becomes open.
pub open spec fn state_after_open_ack(s: RelayState) -> RelayState {
    if s == RelayState::Opening {
        RelayState::Open
    } else {
        s
    }
}

/// The state after a graceful close starts: only an open connection moves to `Closing`.
pub open spec fn state_after_begin_close(s: RelayState) -> RelayState {
    if s == RelayState::Open {
        RelayState::Closing
    } else {
        s
    }
}

/// Connection lifecycle: a closed connection stays closed whatever arrives, and
/// tearing it down a second time reports nothing to do (close callbacks run once).
pub proof fn law_closed_is_final(s: RelayState)
    ensures
        state_after_open_ack(RelayState::Closed) == RelayState::Closed,
        state_after_begin_close(RelayState::Closed) == RelayState::Closed,
        state_after_open_ack(s) == RelayState::Open ==> s == RelayState::Opening || s
            == RelayState::Open,
{
}

/// What the relay manager does with an incoming frame, by kind.
#[derive(Clone, Copy, Debug, PartialEq, Eq, Structural)]
pub enum FrameAction {
    /// OPEN: accept a new incoming connection.
    AcceptIncoming,
    /// OPEN_ACK: an opening connection becomes open.
    Opened,
    /// CLOSE: the peer closed; tear down with `remote_close`.
    RemoteClose,
    /// ERROR: tear down with `protocol_error` and the frame's text.
    RemoteError,
    /// DATA: hand to the receiver.
    Data,
    /// ACK: hand to the sender window.
    Ack,
    /// PING: answer with an ERROR frame.
    Ping,
    /// Anything else is ignored.
    Ignore,
}

/// The action for a frame kind.
pub open spec fn frame_action_of(kind: RelayKind) -> FrameAction {
    match kind {
        RelayKind::Open => FrameAction::AcceptIncoming,
        RelayKind::OpenAck => FrameAction::Opened,
        RelayKind::Close => FrameAction::RemoteClose,
        RelayKind::Error => FrameAction::RemoteError,
        RelayKind::Data => FrameAction::Data,
        RelayKind::Ack => FrameAction::Ack,
        RelayKind::Ping => FrameAction::Ping,
        RelayKind::Unspecified => FrameAction::Ignore,
    }
}

/// Routes an incoming frame by its kind.
pub fn frame_action(kind: RelayKind) -> (r: FrameAction)
    ensures
        r == frame_action_of(kind),
{
    match kind {
        RelayKind::Open => FrameAction::AcceptIncoming,
        RelayKind::OpenAck => FrameAction::Opened,
        RelayKind::Close => FrameAction::RemoteClose,
        RelayKind::Error => FrameAction::RemoteError,
        RelayKind::Data => FrameAction::Data,
        RelayKind::Ack => FrameAction::Ack,
        RelayKind::Ping => FrameAction::Ping,
        RelayKind::Unspecified => FrameAction::Ignore,
    }
}

/// Lexicographic order of texts by code point (the order `str`'s `<` uses,
/// since UTF-8 preserves code point order byte by byte).
pub open spec fn text_lt(a: Seq<char>, b: Seq<char>) -> bool
    decreases a.len(),
{
    if a.len() == 0 {
        b.len() > 0
    } else if b.len() == 0 {
        false
    } else if a[0] != b[0] {
        (a[0] as u32) < (b[0] as u32)
    } else {
        text_lt(a.drop_first(), b.drop_first())
    }
}

proof fn lemma_text_lt_skip(a: Seq<char>, b: Seq<char>, i: int)
    requires
        0 <= i <= a.len(),
        i <= b.len(),
        forall|j: int| 0 <= j < i ==> a[j] == b[j],
    ensures
        text_lt(a, b) == text_lt(a.skip(i), b.skip(i)),
    decreases i,
{
    if i > 0 {
        assert(a[0] == b[0]);
        assert forall|j: int| 0 <= j < i - 1 implies a.drop_first()[j] == b.drop_first()[j] by {
            assert(a.drop_first()[j] == a[j + 1]);
            assert(b.drop_first()[j] == b[j + 1]);
        }
        lemma_text_lt_skip(a.drop_first(), b.drop_first(), i - 1);
        assert(a.drop_first().skip(i - 1) =~= a.skip(i));
        assert(b.drop_first().skip(i - 1) =~= b.skip(i));
    } else {
        assert(a.skip(0) =~= a);
        assert(b.skip(0) =~= b);
    }
}

/// `a < b` for texts.
pub fn text_less(a: &str, b: &str) -> (r: bool)
    ensures
        r == text_lt(a@, b@),
{
    let n = a.unicode_len();
    let m = b.unicode_len();
    let mut i: usize = 0;
    while i < n && i < m
        invariant
            n == a@.len(),
            m == b@.len(),
            i <= n,
            i <= m,
            forall|j: int| 0 <= j < i ==> a@[j] == b@[j],
        decreases n - i,
    {
        let x = a.get_char(i);
        let y = b.get_char(i);
        if x != y {
            proof {
                lemma_text_lt_skip(a@, b@, i as int);
                assert(a@.skip(i as int)[0] == x);
                assert(b@.skip(i as int)[0] == y);
            }
            return (x as u32) < (y as u32);
        }
        i = i + 1;
    }
    proof {
        lemma_text_lt_skip(a@, b@, i as int);
    }
    i < m && i == n
}

/// Text order is irreflexive and asymmetric.
pub proof fn lemma_text_lt_strict(a: Seq<char>, b: Seq<char>)
    ensures
        !text_lt(a, a),
        text_lt(a, b) ==> !text_lt(b, a),
    decreases a.len(),
{
    if a.len() > 0 && b.len() > 0 {
        lemma_text_lt_strict(a.drop_first(), b.drop_first());
    }
    if a.len() > 0 {
        lemma_text_lt_strict(a.drop_first(), a.drop_first());
    }
}

/// What happens to an incoming OPEN.
#[derive(Clone, Copy, Debug, PartialEq, Eq, Structural)]
pub enum OpenDecision {
    /// No connection has this ID: register the new one.
    Register,
    /// The new ID sorts lower: the existing connection is closed with
    /// `duplicate_open` and the new one takes its place.
    ReplaceExisting,
    /// Otherwise the new connection is closed with `duplicate_open`.
    RejectNew,
}

/// Concurrent OPENs: of two connections under the same key the one whose ID
/// sorts lower is kept.
pub fn incoming_open_decision(new_id: &str, existing_id: Option<&str>) -> (r: OpenDecision)
    ensures
        existing_id is None ==> r == OpenDecision::Register,
        existing_id matches Some(e) ==> (r == OpenDecision::ReplaceExisting <==> text_lt(new_id@, e@)),
        existing_id matches Some(e) ==> (r == OpenDecision::RejectNew <==> !text_lt(new_id@, e@)),
{
    match existing_id {
        None => OpenDecision::Register,
        Some(e) => {
            if text_less(new_id, e) {
                OpenDecision::ReplaceExisting
            } else {
                OpenDecision::RejectNew
            }
        },
    }
}

/// Concurrent OPENs keep exactly one connection, the one whose ID sorts lower;
/// a repeated OPEN under the same ID never displaces the existing connection.
pub proof fn law_concurrent_open_keeps_lower(new_id: Seq<char>, existing_id: Seq<char>)
    ensures
        text_lt(new_id, existing_id) ==> !text_lt(existing_id, new_id),
        !text_lt(existing_id, existing_id),
{
    lemma_text_lt_strict(new_id, existing_id);
    lemma_text_lt_strict(existing_id, new_id);
}

/// The relay IDs of a list of registry entries.
pub open spec fn entry_ids<C>(m: Seq<(String, C)>) -> Seq<Seq<char>> {
    m.map_values(|e: (String, C)| e.0@)
}

/// The relay manager's connections, by relay ID.
pub struct RelayRegistry<C> {
    entries: Vec<(String, C)>,
}

/// What the registry does with an incoming OPEN.
#[derive(Debug)]
pub enum OpenOutcome<C> {
    /// The connection is registered: send OPEN_ACK, then hand it to the
    /// connection handler.
    Accepted,
    /// A connection with this ID is registered already and stays: close the
    /// new one with `reason`; no OPEN_ACK is sent and the handler is not called.
    Refused { conn: C, reason: RelayError },
}

impl<C> RelayRegistry<C> {
    /// The registered IDs, in no particular order.
    pub closed spec fn spec_ids(&self) -> Seq<Seq<char>> {
        entry_ids(self.entries@)
    }

    /// The registered connections, by relay ID.
    pub closed spec fn spec_map(&self) -> Map<Seq<char>, C> {
        Map::new(
            |k: Seq<char>| self.spec_ids().contains(k),
            |k: Seq<char>|
                self.entries@[choose|i: int| 0 <= i < self.entries@.len() && self.spec_ids()[i] == k].1,
        )
    }

    /// The registry's invariant: no ID is registered twice.
    pub closed spec fn wf(&self) -> bool {
        self.spec_ids().no_duplicates()
    }

    proof fn lemma_at(&self, i: int)
        requires
            self.wf(),
            0 <= i < self.entries@.len(),
        ensures
            self.spec_ids()[i] == self.entries@[i].0@,
            self.spec_map().contains_key(self.spec_ids()[i]),
            self.spec_map()[self.spec_ids()[i]] == self.entries@[i].1,
    {
        let k = self.spec_ids()[i];
        assert(self.spec_ids().contains(k));
        let j = choose|j: int| 0 <= j < self.entries@.len() && self.spec_ids()[j] == k;
        assert(0 <= j < self.entries@.len() && self.spec_ids()[j] == k);
        assert(j == i);
    }

    proof fn lemma_key(&self, k: Seq<char>) -> (i: int)
        requires
            self.wf(),
            self.spec_map().contains_key(k),
        ensures
            0 <= i < self.entries@.len(),
            self.spec_ids()[i] == k,
            self.spec_map()[k] == self.entries@[i].1,
    {
        let i = choose|i: int| 0 <= i < self.entries@.len() && self.spec_ids()[i] == k;
        self.lemma_at(i);
        i
    }

    /// An empty registry.
    pub fn new() -> (r: Self)
        ensures
            r.wf(),
            r.spec_map() == Map::<Seq<char>, C>::empty(),
    {
        let r = RelayRegistry { entries: Vec::new() };
        assert(r.spec_ids() =~= Seq::<Seq<char>>::empty());
        assert(r.spec_map() =~= Map::<Seq<char>, C>::empty());
        r
    }

    /// How many connections are registered.
    pub fn len(&self) -> (r: usize)
        requires
            self.wf(),
        ensures
            r == self.spec_map().dom().len(),
    {
        proof {
            self.spec_ids().unique_seq_to_set();
            assert(self.spec_map().dom() =~= self.spec_ids().to_set());
        }
        self.entries.len()
    }

    fn find(&self, id: &str) -> (r: Option<usize>)
        ensures
            r is None ==> !self.spec_ids().contains(id@),
            r matches Some(i) ==> i < self.entries@.len() && self.spec_ids()[i as int] == id@,
    {
        let mut i: usize = 0;
        while i < self.entries.len()
            invariant
                i <= self.entries@.len(),
                forall|j: int| 0 <= j < i ==> self.spec_ids()[j] != id@,
            decreases self.entries.len() - i,
        {
            if crate::text::text_eq(self.entries[i].0.as_str(), id) {
                return Some(i);
            }
            i = i + 1;
        }
        None
    }

    /// The connection registered under `id`.
    pub fn get(&self, id: &str) -> (r: Option<&C>)
        requires
            self.wf(),
        ensures
            match r {
                None => !self.spec_map().contains_key(id@),
                Some(c) => self.spec_map().contains_key(id@) && *c == self.spec_map()[id@],
            },
    {
        match self.find(id) {
            None => None,
            Some(i) => {
                proof {
                    self.lemma_at(i as int);
                }
                Some(&self.entries[i].1)
            },
        }
    }

    /// Registers `conn` under `id`, replacing what was registered there.
    pub fn insert(&mut self, id: String, conn: C)
        requires
            old(self).wf(),
        ensures
            final(self).wf(),
            final(self).spec_map() == old(self).spec_map().insert(id@, conn),
    {
        let ghost key = id@;
        match self.find(id.as_str()) {
            Some(i) => {
                self.entries.set(i, (id, conn));
                proof {
                    assert(self.spec_ids() =~= old(self).spec_ids());
                    self.lemma_at(i as int);
                    assert forall|k: Seq<char>| #[trigger] self.spec_map().contains_key(k) && k != key
                        implies self.spec_map()[k] == old(self).spec_map()[k] by {
                        let j = self.lemma_key(k);
                        old(self).lemma_at(j);
                    }
                    assert(self.spec_map() =~= old(self).spec_map().insert(key, conn));
                }
            },
            None => {
                self.entries.push((id, conn));
                proof {
                    assert(self.spec_ids() =~= old(self).spec_ids().push(key));
                    let n = old(self).entries@.len() as int;
                    self.lemma_at(n);
                    assert forall|k: Seq<char>| #[trigger] old(self).spec_map().contains_key(k) implies self.spec_map().contains_key(k)
                        && self.spec_map()[k] == old(self).spec_map()[k] by {
                        let j = old(self).lemma_key(k);
                        self.lemma_at(j);
                    }
                    assert forall|k: Seq<char>| #[trigger] self.spec_map().contains_key(k) && k != key
                        implies old(self).spec_map().contains_key(k) by {
                        let j = self.lemma_key(k);
                        old(self).lemma_at(j);
                    }
                    assert(self.spec_map() =~= old(self).spec_map().insert(key, conn));
                }
            },
        }
    }

    /// Removes the connection registered under `id` and returns it.
    pub fn remove(&mut self, id: &str) -> (r: Option<C>)
        requires
            old(self).wf(),
        ensures
            final(self).wf(),
            final(self).spec_map() == old(self).spec_map().remove(id@),
            match r {
                None => !old(self).spec_map().contains_key(id@),
                Some(c) => old(self).spec_map().contains_key(id@) && c == old(self).spec_map()[id@],
            },
    {
        match self.find(id) {
            None => {
                proof {
                    assert(self.spec_map() =~= old(self).spec_map().remove(id@));
                }
                None
            },
            Some(i) => {
                proof {
                    old(self).lemma_at(i as int);
                }
                let (_, c) = self.entries.remove(i);
                proof {
                    assert(self.spec_ids() =~= old(self).spec_ids().remove(i as int));
                    assert forall|k: Seq<char>| #[trigger] old(self).spec_map().contains_key(k) && k != id@
                        implies self.spec_map().contains_key(k) && self.spec_map()[k] == old(self).spec_map()[k] by {
                        let j = old(self).lemma_key(k);
                        if j < i {
                            self.lemma_at(j);
                        } else {
                            assert(j != i);
                            self.lemma_at(j - 1);
                        }
                    }
                    assert forall|k: Seq<char>| #[trigger] self.spec_map().contains_key(k)
                        implies old(self).spec_map().contains_key(k) && k != id@ by {
                        let j = self.lemma_key(k);
                        if j < i {
                            old(self).lemma_at(j);
                        } else {
                            old(self).lemma_at(j + 1);
                        }
                    }
                    assert(self.spec_map() =~= old(self).spec_map().remove(id@));
                }
                Some(c)
            },
        }
    }

    /// An incoming OPEN under `id` with its new connection `conn`. Of two
    /// connections under one key the one whose ID sorts lower stays; as the key
    /// is the ID itself, a connection already registered under `id` always
    /// stays and the new one is refused with `duplicate_open`. Otherwise the new
    /// connection is registered. Either way each ID keeps at most one connection.
    pub fn accept_open(&mut self, id: String, conn: C) -> (r: OpenOutcome<C>)
        requires
            old(self).wf(),
        ensures
            final(self).wf(),
            old(self).spec_map().contains_key(id@) ==> {
                &&& final(self).spec_map() == old(self).spec_map()
                &&& r matches OpenOutcome::Refused { conn: c, reason } && c == conn
                    && reason.code@ == RELAY_ERROR_DUPLICATE_OPEN@
                    && reason.message@ == "concurrent OPEN, keeping lower relay_id"@
            },
            !old(self).spec_map().contains_key(id@) ==> {
                &&& final(self).spec_map() == old(self).spec_map().insert(id@, conn)
                &&& r is Accepted
            },
    {
        let decision = match self.find(id.as_str()) {
            None => incoming_open_decision(id.as_str(), None),
            Some(i) => {
                proof {
                    lemma_text_lt_strict(id@, id@);
                }
                incoming_open_decision(id.as_str(), Some(self.entries[i].0.as_str()))
            },
        };
        match decision {
            OpenDecision::Register => {
                self.insert(id, conn);
                OpenOutcome::Accepted
            },
            _ => OpenOutcome::Refused {
                conn,
                reason: RelayError::new(RELAY_ERROR_DUPLICATE_OPEN, "concurrent OPEN, keeping lower relay_id"),
            },
        }
    }
}

/// One `enqueue(data)` that returned `seq`: it was called with room in the
/// window, numbered the frame with the next sequence number and keeps it until
/// acknowledged.
pub open spec fn enqueue_step(a: RelayConnectionCore, b: RelayConnectionCore, data: Seq<u8>, seq: u64) -> bool {
    &&& b.wf()
    &&& a.spec_send_base() <= a.spec_next_seq()
    &&& a.spec_next_seq() - a.spec_send_base() < a.spec_config().window_size
    &&& seq == a.spec_next_seq()
    &&& b.spec_next_seq() == seq + 1
    &&& b.spec_send_base() == a.spec_send_base()
    &&& b.spec_config() == a.spec_config()
    &&& b.spec_unacked() == a.spec_unacked().insert(seq, data)
}

/// One `on_ack(ack_seq)`: numbering is untouched; a reliable connection moves
/// its send base past an ACK that is not older than it.
pub open spec fn ack_step(a: RelayConnectionCore, b: RelayConnectionCore, ack_seq: u64) -> bool {
    &&& b.wf()
    &&& b.spec_next_seq() == a.spec_next_seq()
    &&& b.spec_config() == a.spec_config()
    &&& b.spec_send_base() == if a.spec_config().reliability != Reliability::BestEffort && ack_seq
        >= a.spec_send_base() {
        (ack_seq + 1) as u64
    } else {
        a.spec_send_base()
    }
}

/// A sending run: step `i` is `(true, data, seq)` for an `enqueue(data)` that
/// returned `seq`, or `(false, _, ack_seq)` for an `on_ack(ack_seq)`.
pub open spec fn send_run_step(a: RelayConnectionCore, b: RelayConnectionCore, step: (bool, Seq<u8>, u64)) -> bool {
    if step.0 {
        enqueue_step(a, b, step.1, step.2)
    } else {
        ack_step(a, b, step.2)
    }
}

/// How many frames a run of steps sent.
pub open spec fn sent_count(steps: Seq<(bool, Seq<u8>, u64)>) -> int
    decreases steps.len(),
{
    if steps.len() == 0 {
        0
    } else {
        sent_count(steps.drop_last()) + if steps.last().0 {
            1int
        } else {
            0int
        }
    }
}

proof fn lemma_send_run_prefix(cs: Seq<RelayConnectionCore>, steps: Seq<(bool, Seq<u8>, u64)>, i: int)
    requires
        cs.len() == steps.len() + 1,
        cs[0].wf(),
        cs[0].spec_send_base() <= cs[0].spec_next_seq(),
        forall|k: int| 0 <= k < steps.len() ==> send_run_step(cs[k], cs[k + 1], #[trigger] steps[k]),
        forall|k: int|
            0 <= k < steps.len() && !(#[trigger] steps[k]).0 ==> steps[k].2 < cs[k].spec_next_seq(),
        0 <= i <= steps.len(),
    ensures
        cs[i].wf(),
        cs[i].spec_config() == cs[0].spec_config(),
        cs[i].spec_send_base() <= cs[i].spec_next_seq(),
        cs[i].spec_next_seq() == cs[0].spec_next_seq() + sent_count(steps.take(i)),
    decreases i,
{
    if i > 0 {
        lemma_send_run_prefix(cs, steps, i - 1);
        assert(send_run_step(cs[i - 1], cs[i], steps[i - 1]));
        assert(steps.take(i).drop_last() =~= steps.take(i - 1));
        if !steps[i - 1].0 {
            assert(steps[i - 1].2 < cs[i - 1].spec_next_seq());
        }
    } else {
        assert(steps.take(0) =~= Seq::<(bool, Seq<u8>, u64)>::empty());
    }
}

/// Sliding-window sending, over a whole run of `enqueue` and `on_ack` calls
/// on one connection, with every ACK for a frame already sent: the frames are
/// numbered consecutively from the connection's next number in the order the
/// payloads were handed over, one number per payload; each was sent only while
/// fewer than `window_size` frames were in flight; and at every point the
/// frames in flight, `send_base..next_seq`, number at most `window_size`.
/// For a new connection the first number is 1.
pub proof fn law_send_run_numbering(cs: Seq<RelayConnectionCore>, steps: Seq<(bool, Seq<u8>, u64)>)
    requires
        cs.len() == steps.len() + 1,
        cs[0].wf(),
        cs[0].spec_send_base() <= cs[0].spec_next_seq(),
        forall|k: int| 0 <= k < steps.len() ==> send_run_step(cs[k], cs[k + 1], #[trigger] steps[k]),
        forall|k: int|
            0 <= k < steps.len() && !(#[trigger] steps[k]).0 ==> steps[k].2 < cs[k].spec_next_seq(),
    ensures
        forall|k: int|
            0 <= k < steps.len() && (#[trigger] steps[k]).0 ==> steps[k].2 == cs[0].spec_next_seq()
                + sent_count(steps.take(k)) && cs[k].spec_next_seq() - cs[k].spec_send_base()
                < cs[0].spec_config().window_size,
        forall|k: int|
            0 <= k <= steps.len() ==> #[trigger] cs[k].spec_send_base() <= cs[k].spec_next_seq()
                && cs[k].spec_next_seq() - cs[k].spec_send_base() <= cs[0].spec_config().window_size
                && cs[k].spec_next_seq() == cs[0].spec_next_seq() + sent_count(steps.take(k)),
{
    assert forall|k: int| 0 <= k < steps.len() && (#[trigger] steps[k]).0 implies steps[k].2
        == cs[0].spec_next_seq() + sent_count(steps.take(k)) && cs[k].spec_next_seq()
        - cs[k].spec_send_base() < cs[0].spec_config().window_size by {
        lemma_send_run_prefix(cs, steps, k);
        assert(send_run_step(cs[k], cs[k + 1], steps[k]));
    }
    assert forall|k: int| 0 <= k <= steps.len() implies #[trigger] cs[k].spec_send_base()
        <= cs[k].spec_next_seq() && cs[k].spec_next_seq() - cs[k].spec_send_base()
        <= cs[0].spec_config().window_size && cs[k].spec_next_seq() == cs[0].spec_next_seq()
        + sent_count(steps.take(k)) by {
        lemma_send_run_prefix(cs, steps, k);
        cs[k].law_send_window();
    }
}

/// What a retransmission timer tick asks for.
#[derive(Debug)]
pub enum RetransmitOutcome {
    /// Too many rounds without progress: close with `max_retransmit`.
    GiveUp,
    /// Send these frames again (sequence number and payload).
    Resend(Vec<(u64, Vec<u8>)>),
}

/// The protocol state of one relay connection.
pub struct RelayConnectionCore {
    config: RelayConfig,
    state: RelayState,
    send_base: u64,
    next_seq: u64,
    expected_seq: u64,
    retrans_cnt: u32,
    unacked: HashMap<u64, Vec<u8>>,
    recv_buf: HashMap<u64, Vec<u8>>,
}

impl RelayConnectionCore {
    /// The connection's configuration.
    pub closed spec fn spec_config(&self) -> RelayConfig {
        self.config
    }

    /// Where the connection stands.
    pub closed spec fn spec_state(&self) -> RelayState {
        self.state
    }

    /// Oldest sequence number not yet acknowledged.
    pub closed spec fn spec_send_base(&self) -> u64 {
        self.send_base
    }

    /// Sequence number the next DATA frame gets.
    pub closed spec fn spec_next_seq(&self) -> u64 {
        self.next_seq
    }

    /// Sequence number the receiver hands out next.
    pub closed spec fn spec_expected_seq(&self) -> u64 {
        self.expected_seq
    }

    /// Retransmission rounds since the last ACK progress.
    pub closed spec fn spec_retrans(&self) -> u32 {
        self.retrans_cnt
    }

    /// Frames sent and not acknowledged, by sequence number.
    pub closed spec fn spec_unacked(&self) -> Map<u64, Seq<u8>> {
        self.unacked@.map_values(|v: Vec<u8>| v@)
    }

    /// Frames received ahead of the expected one, by sequence number.
    pub closed spec fn spec_buffer(&self) -> Map<u64, Seq<u8>> {
        self.recv_buf@.map_values(|v: Vec<u8>| v@)
    }

    /// The connection's invariant: sequence numbers start at 1; the unacknowledged
    /// frames are exactly `send_base..next_seq`, at most a window of them; every
    /// buffered frame lies strictly ahead of the expected one and inside the window.
    pub closed spec fn wf(&self) -> bool {
        &&& self.send_base >= 1
        &&& self.next_seq >= 1
        &&& self.expected_seq >= 1
        &&& self.next_seq - self.send_base <= self.config.window_size
        &&& forall|k: u64| #[trigger]
            self.unacked@.contains_key(k) <==> (self.send_base <= k && k < self.next_seq)
        &&& forall|k: u64| #[trigger]
            self.recv_buf@.contains_key(k) ==> self.expected_seq < k && k - self.expected_seq
                < self.config.window_size && k < u64::MAX
        &&& self.retrans_cnt <= self.config.max_retransmits + 1
    }

    /// Send window: every invariant-keeping connection has exactly the frames
    /// `send_base..next_seq` in flight, and never more than `window_size` of them.
    pub proof fn law_send_window(&self)
        requires
            self.wf(),
        ensures
            self.spec_next_seq() - self.spec_send_base() <= self.spec_config().window_size,
            forall|k: u64| #[trigger]
                self.spec_unacked().contains_key(k) <==> (self.spec_send_base() <= k && k
                    < self.spec_next_seq()),
    {
        assert forall|k: u64| #[trigger]
            self.spec_unacked().contains_key(k) <==> (self.spec_send_base() <= k && k
                < self.spec_next_seq()) by {
            assert(self.unacked@.contains_key(k) <==> (self.send_base <= k && k < self.next_seq));
        }
    }

    /// Receive buffer: every invariant-keeping connection buffers only frames
    /// strictly ahead of the expected one and inside the window.
    pub proof fn law_receive_window(&self)
        requires
            self.wf(),
        ensures
            forall|k: u64| #[trigger]
                self.spec_buffer().contains_key(k) ==> self.spec_expected_seq() < k && k
                    - self.spec_expected_seq() < self.spec_config().window_size,
    {
        assert forall|k: u64| #[trigger] self.spec_buffer().contains_key(k) implies self.spec_expected_seq() < k && k
                    - self.spec_expected_seq() < self.spec_config().window_size by {
            assert(self.recv_buf@.contains_key(k));
        }
    }

    /// A connection this side opens: OPEN is about to be sent, OPEN_ACK awaited.
    pub fn new_outbound(config: RelayConfig) -> (r: Self)
        ensures
            r.wf(),
            r.spec_state() == RelayState::Opening,
            r.spec_config() == config,
            r.spec_send_base() == 1,
            r.spec_next_seq() == 1,
            r.spec_expected_seq() == 1,
            r.spec_retrans() == 0,
            r.spec_unacked() == Map::<u64, Seq<u8>>::empty(),
            r.spec_buffer() == Map::<u64, Seq<u8>>::empty(),
    {
        let r = RelayConnectionCore {
            config,
            state: RelayState::Opening,
            send_base: 1,
            next_seq: 1,
            expected_seq: 1,
            retrans_cnt: 0,
            unacked: HashMap::new(),
            recv_buf: HashMap::new(),
        };
        assert(r.spec_unacked() =~= Map::<u64, Seq<u8>>::empty());
        assert(r.spec_buffer() =~= Map::<u64, Seq<u8>>::empty());
        r
    }

    /// A connection the peer opened: accepted with the default configuration and open at once.
    pub fn new_inbound() -> (r: Self)
        ensures
            r.wf(),
            r.spec_state() == RelayState::Open,
            is_default_relay_config(r.spec_config()),
            r.spec_send_base() == 1,
            r.spec_next_seq() == 1,
            r.spec_expected_seq() == 1,
            r.spec_retrans() == 0,
            r.spec_unacked() == Map::<u64, Seq<u8>>::empty(),
            r.spec_buffer() == Map::<u64, Seq<u8>>::empty(),
    {
        let mut r = Self::new_outbound(RelayConfig::default());
        r.state = RelayState::Open;
        r
    }

    /// The current state.
    pub fn state(&self) -> (r: RelayState)
        ensures
            r == self.spec_state(),
    {
        self.state
    }

    /// The configuration.
    pub fn config(&self) -> (r: &RelayConfig)
        ensures
            *r == self.spec_config(),
    {
        &self.config
    }

    /// The oldest sequence number not yet acknowledged.
    pub fn send_base(&self) -> (r: u64)
        ensures
            r == self.spec_send_base(),
    {
        self.send_base
    }

    /// The sequence number the next DATA frame gets.
    pub fn next_seq(&self) -> (r: u64)
        ensures
            r == self.spec_next_seq(),
    {
        self.next_seq
    }

    /// Retransmission rounds since the last ACK progress.
    pub fn retrans(&self) -> (r: u32)
        ensures
            r == self.spec_retrans(),
    {
        self.retrans_cnt
    }

    /// Whether the ordered receiver would deliver or buffer DATA `seq`.
    pub fn would_keep(&self, seq: u64) -> (r: bool)
        ensures
            r == ordered_keeps(self.spec_expected_seq(), self.spec_config().window_size, seq),
    {
        seq == self.expected_seq || (seq > self.expected_seq && seq - self.expected_seq < self.config.window_size)
    }

    /// OPEN_ACK arrived: an opening connection becomes open. Returns whether it did.
    pub fn on_open_ack(&mut self) -> (r: bool)
        requires
            old(self).wf(),
        ensures
            final(self).wf(),
            r == (old(self).spec_state() == RelayState::Opening),
            final(self).spec_state() == state_after_open_ack(old(self).spec_state()),
            final(self).spec_config() == old(self).spec_config(),
            final(self).spec_send_base() == old(self).spec_send_base(),
            final(self).spec_next_seq() == old(self).spec_next_seq(),
            final(self).spec_expected_seq() == old(self).spec_expected_seq(),
            final(self).spec_retrans() == old(self).spec_retrans(),
            final(self).spec_unacked() == old(self).spec_unacked(),
            final(self).spec_buffer() == old(self).spec_buffer(),
    {
        if self.state == RelayState::Opening {
            self.state = RelayState::Open;
            true
        } else {
            false
        }
    }

    /// A graceful close starts: only an open connection moves to `Closing`.
    /// Returns whether it did (the CLOSE frame is then sent).
    pub fn begin_close(&mut self) -> (r: bool)
        requires
            old(self).wf(),
        ensures
            final(self).wf(),
            r == (old(self).spec_state() == RelayState::Open),
            final(self).spec_state() == state_after_begin_close(old(self).spec_state()),
            final(self).spec_config() == old(self).spec_config(),
            final(self).spec_send_base() == old(self).spec_send_base(),
            final(self).spec_next_seq() == old(self).spec_next_seq(),
            final(self).spec_expected_seq() == old(self).spec_expected_seq(),
            final(self).spec_retrans() == old(self).spec_retrans(),
            final(self).spec_unacked() == old(self).spec_unacked(),
            final(self).spec_buffer() == old(self).spec_buffer(),
    {
        if self.state == RelayState::Open {
            self.state = RelayState::Closing;
            true
        } else {
            false
        }
    }

    /// The connection is torn down. Returns `false` when it already was closed,
    /// in which case nothing else happens (callbacks run once).
    pub fn mark_closed(&mut self) -> (r: bool)
        requires
            old(self).wf(),
        ensures
            final(self).wf(),
            r == (old(self).spec_state() != RelayState::Closed),
            final(self).spec_state() == RelayState::Closed,
            final(self).spec_config() == old(self).spec_config(),
            final(self).spec_send_base() == old(self).spec_send_base(),
            final(self).spec_next_seq() == old(self).spec_next_seq(),
            final(self).spec_expected_seq() == old(self).spec_expected_seq(),
            final(self).spec_retrans() == old(self).spec_retrans(),
            final(self).spec_unacked() == old(self).spec_unacked(),
            final(self).spec_buffer() == old(self).spec_buffer(),
    {
        if self.state == RelayState::Closed {
            false
        } else {
            self.state = RelayState::Closed;
            true
        }
    }

    /// Whether a `send` call goes ahead: `Ok(false)` for empty data (nothing to do),
    /// `not_connected` unless open, `client_closed` once the connection was shut.
    pub fn send_check(&self, data_len: usize, closed: bool) -> (r: Result<bool, RelayError>)
        ensures
            data_len == 0 ==> r matches Ok(false),
            data_len > 0 && self.spec_state() != RelayState::Open ==> (r matches Err(e)
                && e.code@ == RELAY_ERROR_NOT_CONNECTED@ && e.message@ == "connection not open"@),
            data_len > 0 && self.spec_state() == RelayState::Open && closed ==> (r matches Err(e)
                && e.code@ == RELAY_ERROR_CLIENT_CLOSED@ && e.message@ == "connection closed"@),
            data_len > 0 && self.spec_state() == RelayState::Open && !closed ==> r matches Ok(
                true,
            ),
    {
        if data_len == 0 {
            return Ok(false);
        }
        if self.state != RelayState::Open {
            return Err(RelayError::new(RELAY_ERROR_NOT_CONNECTED, "connection not open"));
        }
        if closed {
            return Err(RelayError::new(RELAY_ERROR_CLIENT_CLOSED, "connection closed"));
        }
        Ok(true)
    }

    /// A DATA frame arrived. `BestEffort` hands the payload out at once;
    /// `AtLeastOnce` acknowledges it and hands it out; `ReliableOrdered` hands out
    /// the frames in sequence order, each once (see `ordered_step`), and
    /// acknowledges the frame's number.
    pub fn on_data(&mut self, seq: u64, payload: Vec<u8>) -> (r: DataOutcome)
        requires
            old(self).wf(),
            old(self).spec_config().reliability == Reliability::ReliableOrdered && ordered_keeps(
                old(self).spec_expected_seq(),
                old(self).spec_config().window_size,
                seq,
            ) ==> seq < u64::MAX,
        ensures
            final(self).wf(),
            final(self).spec_config() == old(self).spec_config(),
            final(self).spec_state() == old(self).spec_state(),
            final(self).spec_send_base() == old(self).spec_send_base(),
            final(self).spec_next_seq() == old(self).spec_next_seq(),
            final(self).spec_retrans() == old(self).spec_retrans(),
            final(self).spec_unacked() == old(self).spec_unacked(),
            match old(self).spec_config().reliability {
                Reliability::BestEffort => {
                    &&& payloads(r.deliver@) == seq![payload@]
                    &&& r.ack_seq is None
                    &&& final(self).spec_expected_seq() == old(self).spec_expected_seq()
                    &&& final(self).spec_buffer() == old(self).spec_buffer()
                },
                Reliability::AtLeastOnce => {
                    &&& payloads(r.deliver@) == seq![payload@]
                    &&& r.ack_seq == Some(seq)
                    &&& final(self).spec_expected_seq() == old(self).spec_expected_seq()
                    &&& final(self).spec_buffer() == old(self).spec_buffer()
                },
                Reliability::ReliableOrdered => {
                    &&& r.ack_seq == Some(seq)
                    &&& ordered_step(
                        old(self).spec_expected_seq(),
                        old(self).spec_buffer(),
                        old(self).spec_config().window_size,
                        seq,
                        payload@,
                        final(self).spec_expected_seq(),
                        final(self).spec_buffer(),
                        payloads(r.deliver@),
                    )
                },
            },
    {
        match self.config.reliability {
            Reliability::BestEffort => {
                let mut deliver = Vec::new();
                deliver.push(payload);
                assert(payloads(deliver@) =~= seq![payload@]);
                DataOutcome { deliver, ack_seq: None }
            },
            Reliability::AtLeastOnce => {
                let mut deliver = Vec::new();
                deliver.push(payload);
                assert(payloads(deliver@) =~= seq![payload@]);
                DataOutcome { deliver, ack_seq: Some(seq) }
            },
            Reliability::ReliableOrdered => {
                let deliver = self.receive_ordered(seq, payload);
                DataOutcome { deliver, ack_seq: Some(seq) }
            },
        }
    }

    fn receive_ordered(&mut self, seq: u64, payload: Vec<u8>) -> (deliver: Vec<Vec<u8>>)
        requires
            old(self).wf(),
            ordered_keeps(old(self).spec_expected_seq(), old(self).spec_config().window_size, seq) ==> seq
                < u64::MAX,
        ensures
            final(self).wf(),
            final(self).spec_config() == old(self).spec_config(),
            final(self).spec_state() == old(self).spec_state(),
            final(self).spec_send_base() == old(self).spec_send_base(),
            final(self).spec_next_seq() == old(self).spec_next_seq(),
            final(self).spec_retrans() == old(self).spec_retrans(),
            final(self).spec_unacked() == old(self).spec_unacked(),
            ordered_step(
                old(self).spec_expected_seq(),
                old(self).spec_buffer(),
                old(self).spec_config().window_size,
                seq,
                payload@,
                final(self).spec_expected_seq(),
                final(self).spec_buffer(),
                payloads(deliver@),
            ),
    {
        let ghost old_buf = self.spec_buffer();
        let ghost old_exp = self.expected_seq;
        let mut deliver: Vec<Vec<u8>> = Vec::new();
        if seq == self.expected_seq {
            let ghost p = payload@;
            deliver.push(payload);
            self.expected_seq = self.expected_seq + 1;
            while self.recv_buf.contains_key(&self.expected_seq)
                invariant
                    self.send_base == old(self).send_base,
                    self.next_seq == old(self).next_seq,
                    self.retrans_cnt == old(self).retrans_cnt,
                    self.state == old(self).state,
                    self.config == old(self).config,
                    self.unacked == old(self).unacked,
                    old_exp == old(self).expected_seq,
                    old_buf == old(self).spec_buffer(),
                    old(self).wf(),
                    deliver.len() >= 1,
                    self.expected_seq == old_exp + deliver.len(),
                    deliver@[0]@ == p,
                    forall|i: int|
                        1 <= i < deliver.len() ==> #[trigger] old_buf.contains_key((old_exp + i) as u64),
                    forall|i: int|
                        1 <= i < deliver.len() ==> #[trigger] deliver@[i]@ == old_buf[(old_exp + i) as u64],
                    self.spec_buffer() == old_buf.remove_keys(
                        seq_range(old_exp + 1, self.expected_seq as int),
                    ),
                    forall|k: u64| #[trigger]
                        self.recv_buf@.contains_key(k) ==> self.expected_seq <= k && k
                            - old_exp < self.config.window_size && k < u64::MAX,
                decreases self.recv_buf@.len(),
            {
                let ghost before = self.recv_buf@;
                let ghost before_view = self.spec_buffer();
                let ghost dl = deliver@;
                let key = self.expected_seq;
                proof {
                    assert(before.contains_key(key));
                    assert(before_view.contains_key(key));
                    assert(old_buf.contains_key(key));
                    assert(old_buf[key] == before_view[key]);
                    assert(before_view[key] == before[key]@);
                    assert(before.dom().finite());
                }
                let removed = self.recv_buf.remove(&key);
                match removed {
                    None => {
                        proof {
                            assert(false);
                        }
                    },
                    Some(data) => {
                    proof {
                        assert(self.recv_buf@ == before.remove(key));
                        assert(data == before[key]);
                        assert(self.recv_buf@.len() < before.len());
                    }
                    deliver.push(data);
                    self.expected_seq = self.expected_seq + 1;
                    proof {
                        assert(deliver@ =~= dl.push(data));
                        assert(self.spec_buffer() =~= before_view.remove(key));
                        assert(before_view.remove(key) =~= old_buf.remove_keys(
                            seq_range(old_exp + 1, self.expected_seq as int),
                        ));
                        assert forall|i: int|
                            1 <= i < deliver.len() implies #[trigger] old_buf.contains_key((old_exp + i) as u64) by {
                            if i < deliver.len() - 1 {
                                assert(deliver@[i] == dl[i]);
                            } else {
                                assert((old_exp + i) as u64 == key);
                            }
                        }
                        assert forall|i: int|
                            1 <= i < deliver.len() implies #[trigger] deliver@[i]@ == old_buf[(old_exp + i) as u64] by {
                            if i < deliver.len() - 1 {
                                assert(deliver@[i] == dl[i]);
                            } else {
                                assert((old_exp + i) as u64 == key);
                            }
                        }
                    }
                    },
                }
            }
            proof {
                let e = self.expected_seq;
                assert(!self.recv_buf@.contains_key(e));
                if old_buf.contains_key(e) {
                    assert(!seq_range(old_exp + 1, e as int).contains(e));
                    assert(self.spec_buffer().contains_key(e));
                }
                assert forall|k: u64| #[trigger] self.recv_buf@.contains_key(k) implies self.expected_seq < k by {
                    if k == e {
                    }
                }
            }
            proof {
                assert(old_exp < self.expected_seq);
            }
            proof {
                let new_exp = self.expected_seq;
                let d = payloads(deliver@);
                assert forall|i: int| 1 <= i < d.len() implies old_buf.contains_key((old_exp + i) as u64)
                    && #[trigger] d[i] == old_buf[(old_exp + i) as u64] by {
                    assert(old_buf.contains_key((old_exp + i) as u64));
                    assert(deliver@[i]@ == old_buf[(old_exp + i) as u64]);
                }
                assert(d.len() >= 1);
                assert(new_exp == old_exp + d.len());
                assert(d[0] == p);
                assert(!old_buf.contains_key(new_exp));
                assert(self.spec_buffer() == old_buf.remove_keys(seq_range(old_exp + 1, new_exp as int)));
            }
        } else if seq > self.expected_seq && seq - self.expected_seq < self.config.window_size {
            let ghost p = payload@;
            self.recv_buf.insert(seq, payload);
            proof {
                assert(self.spec_buffer() =~= old_buf.insert(seq, p));
            }
        } else {
        }
        deliver
    }

    /// Whether the send window has room: fewer than `window_size` frames in flight.
    pub fn window_has_room(&self) -> (r: bool)
        requires
            self.spec_send_base() <= self.spec_next_seq(),
        ensures
            r == (self.spec_next_seq() - self.spec_send_base() < self.spec_config().window_size),
    {
        self.next_seq - self.send_base < self.config.window_size
    }

    /// Assigns the next sequence number to `data` and keeps the frame until it is acknowledged.
    /// Only called while the window has room.
    pub fn enqueue(&mut self, data: &Vec<u8>) -> (seq: u64)
        requires
            old(self).wf(),
            old(self).spec_send_base() <= old(self).spec_next_seq(),
            old(self).spec_next_seq() - old(self).spec_send_base() < old(self).spec_config().window_size,
            old(self).spec_next_seq() < u64::MAX,
        ensures
            final(self).wf(),
            seq == old(self).spec_next_seq(),
            final(self).spec_next_seq() == seq + 1,
            final(self).spec_unacked() == old(self).spec_unacked().insert(seq, data@),
            final(self).spec_config() == old(self).spec_config(),
            final(self).spec_state() == old(self).spec_state(),
            final(self).spec_send_base() == old(self).spec_send_base(),
            final(self).spec_expected_seq() == old(self).spec_expected_seq(),
            final(self).spec_retrans() == old(self).spec_retrans(),
            final(self).spec_buffer() == old(self).spec_buffer(),
            enqueue_step(*old(self), *final(self), data@, seq),
    {
        let seq = self.next_seq;
        self.next_seq = self.next_seq + 1;
        let copy = clone_bytes(data);
        self.unacked.insert(seq, copy);
        proof {
            assert(self.spec_unacked() =~= old(self).spec_unacked().insert(seq, data@));
        }
        seq
    }

    /// A cumulative ACK for `ack_seq` arrived (ignored by `BestEffort`): when it is
    /// not older than the send base, every frame up to it is released, the base
    /// moves past it and the retransmission count restarts.
    pub fn on_ack(&mut self, ack_seq: u64)
        requires
            old(self).wf(),
            old(self).spec_config().reliability != Reliability::BestEffort && ack_seq
                >= old(self).spec_send_base() ==> ack_seq < u64::MAX,
        ensures
            final(self).wf(),
            final(self).spec_config() == old(self).spec_config(),
            final(self).spec_state() == old(self).spec_state(),
            final(self).spec_next_seq() == old(self).spec_next_seq(),
            final(self).spec_expected_seq() == old(self).spec_expected_seq(),
            final(self).spec_buffer() == old(self).spec_buffer(),
            if old(self).spec_config().reliability != Reliability::BestEffort && ack_seq
                >= old(self).spec_send_base() {
                &&& final(self).spec_send_base() == ack_seq + 1
                &&& final(self).spec_retrans() == 0
                &&& final(self).spec_unacked() == old(self).spec_unacked().remove_keys(
                    seq_range(old(self).spec_send_base() as int, ack_seq + 1),
                )
            } else {
                &&& final(self).spec_send_base() == old(self).spec_send_base()
                &&& final(self).spec_retrans() == old(self).spec_retrans()
                &&& final(self).spec_unacked() == old(self).spec_unacked()
            },
            ack_step(*old(self), *final(self), ack_seq),
    {
        if self.config.reliability == Reliability::BestEffort {
            return;
        }
        if ack_seq >= self.send_base {
            let ghost old_unacked = self.spec_unacked();
            let base = self.send_base;
            let mut s = base;
            while s <= ack_seq
                invariant
                    base == old(self).send_base,
                    base <= s,
                    s <= ack_seq + 1,
                    ack_seq < u64::MAX,
                    old_unacked == old(self).spec_unacked(),
                    self.spec_unacked() == old_unacked.remove_keys(seq_range(base as int, s as int)),
                    forall|k: u64| #[trigger]
                        self.unacked@.contains_key(k) <==> (s <= k && k < old(self).next_seq)
                            || (base <= k && k < old(self).next_seq && !(base <= k && k < s)),
                    self.config == old(self).config,
                    self.state == old(self).state,
                    self.send_base == old(self).send_base,
                    self.next_seq == old(self).next_seq,
                    self.expected_seq == old(self).expected_seq,
                    self.retrans_cnt == old(self).retrans_cnt,
                    self.recv_buf == old(self).recv_buf,
                decreases ack_seq + 1 - s,
            {
                let ghost before = self.unacked@;
                let ghost before_view = self.spec_unacked();
                self.unacked.remove(&s);
                proof {
                    assert(self.unacked@ == before.remove(s));
                    assert(self.spec_unacked() =~= before_view.remove(s));
                    assert(old_unacked.remove_keys(seq_range(base as int, s as int)).remove(s)
                        =~= old_unacked.remove_keys(seq_range(base as int, s + 1)));
                }
                s = s + 1;
            }
            self.send_base = ack_seq + 1;
            self.retrans_cnt = 0;
        }
    }

    /// The retransmission timer fired: one more round without progress. Past
    /// `max_retransmits` rounds the connection gives up; otherwise every
    /// unacknowledged frame is sent again, in sequence order.
    pub fn retransmit_tick(&mut self) -> (r: RetransmitOutcome)
        requires
            old(self).wf(),
            old(self).spec_retrans() <= old(self).spec_config().max_retransmits,
            old(self).spec_retrans() < u32::MAX,
        ensures
            final(self).wf(),
            final(self).spec_retrans() == old(self).spec_retrans() + 1,
            final(self).spec_config() == old(self).spec_config(),
            final(self).spec_state() == old(self).spec_state(),
            final(self).spec_send_base() == old(self).spec_send_base(),
            final(self).spec_next_seq() == old(self).spec_next_seq(),
            final(self).spec_expected_seq() == old(self).spec_expected_seq(),
            final(self).spec_unacked() == old(self).spec_unacked(),
            final(self).spec_buffer() == old(self).spec_buffer(),
            old(self).spec_retrans() + 1 > old(self).spec_config().max_retransmits <==> r is GiveUp,
            r matches RetransmitOutcome::Resend(frames) ==> {
                &&& frames.len() == if old(self).spec_send_base() <= old(self).spec_next_seq() {
                    old(self).spec_next_seq() - old(self).spec_send_base()
                } else {
                    0
                }
                &&& forall|i: int|
                    0 <= i < frames.len() ==> #[trigger] frames[i].0 == old(self).spec_send_base()
                        + i && frames[i].1@ == old(self).spec_unacked()[frames[i].0]
            },
    {
        self.retrans_cnt = self.retrans_cnt + 1;
        if self.retrans_cnt > self.config.max_retransmits {
            return RetransmitOutcome::GiveUp;
        }
        let mut frames: Vec<(u64, Vec<u8>)> = Vec::new();
        let mut s = self.send_base;
        while s < self.next_seq
            invariant
                self.wf(),
                self.send_base <= s || self.send_base > self.next_seq,
                s >= self.send_base,
                s <= self.next_seq || s == self.send_base,
                frames.len() == s - self.send_base,
                forall|i: int|
                    0 <= i < frames.len() ==> #[trigger] frames[i].0 == self.send_base + i
                        && frames[i].1@ == self.spec_unacked()[frames[i].0],
            decreases self.next_seq - s,
        {
            let entry = self.unacked.get(&s);
            match entry {
                Some(data) => {
                    let copy = clone_bytes(data);
                    frames.push((s, copy));
                },
                None => {
                    proof {
                        assert(self.unacked@.contains_key(s));
                    }
                },
            }
            s = s + 1;
        }
        RetransmitOutcome::Resend(frames)
    }
}

/// The delivery mode relay frames travel with: `Unspecified` falls back to `RouteRetry`.
pub fn effective_delivery_mode(mode: DeliveryMode) -> (r: DeliveryMode)
    ensures
        r == if mode == DeliveryMode::Unspecified { DeliveryMode::RouteRetry } else { mode },
{
    if mode == DeliveryMode::Unspecified {
        DeliveryMode::RouteRetry
    } else {
        mode
    }
}

/// Capacity of a connection's send channel: one slot per KiB of send buffer, at least one.
pub fn send_channel_capacity(config: &RelayConfig) -> (r: usize)
    ensures
        r == if config.send_buffer_size / 1024 >= 1 { config.send_buffer_size / 1024 } else { 1 },
{
    let n = config.send_buffer_size / 1024;
    if n >= 1 {
        n
    } else {
        1
    }
}

/// The session a new relay connection targets: the first one able to take transient packets.
pub fn pick_transient_session(sessions: &Vec<ResolvedSession>) -> (r: Option<SessionRef>)
    ensures
        r is None <==> forall|i: int| 0 <= i < sessions.len() ==> !(#[trigger] sessions[i]).transient_capable,
        r matches Some(s) ==> exists|i: int|
            0 <= i < sessions.len() && sessions[i].transient_capable && (forall|j: int|
                0 <= j < i ==> !(#[trigger] sessions[j]).transient_capable) && s == sessions[i].session,
{
    let mut i: usize = 0;
    while i < sessions.len()
        invariant
            i <= sessions.len(),
            forall|j: int| 0 <= j < i ==> !(#[trigger] sessions[j]).transient_capable,
        decreases sessions.len() - i,
    {
        if sessions[i].transient_capable {
            let s = copy_session_ref(&sessions[i].session);
            return Some(s);
        }
        i = i + 1;
    }
    None
}

/// A frame of connection `relay_id` from `sender` to `target`, stamped `sent_at_ms`.
pub fn relay_frame(
    relay_id: &str,
    kind: RelayKind,
    sender: &SessionRef,
    target: &SessionRef,
    seq: u64,
    ack_seq: u64,
    payload: Vec<u8>,
    sent_at_ms: i64,
) -> (r: RelayEnvelope)
    ensures
        r.relay_id@ == relay_id@,
        r.kind == kind,
        r.sender_session == *sender,
        r.target_session == *target,
        r.seq == seq,
        r.ack_seq == ack_seq,
        r.payload == payload,
        r.sent_at_ms == sent_at_ms,
{
    RelayEnvelope {
        relay_id: String::from_str(relay_id),
        kind,
        sender_session: copy_session_ref(sender),
        target_session: copy_session_ref(target),
        seq,
        ack_seq,
        payload,
        sent_at_ms,
    }
}

/// The session an outgoing connection opens to, from the target's resolved
/// sessions: resolving must have worked (its error is reported as
/// `not_connected` with `resolve sessions: ` and the error's text) and a
/// session must take transient packets.
pub fn connect_target(resolved: Result<Vec<ResolvedSession>, String>) -> (r: Result<SessionRef, RelayError>)
    ensures
        match resolved {
            Err(m) => r matches Err(e) && e.code@ == RELAY_ERROR_NOT_CONNECTED@ && e.message@
                == "resolve sessions: "@ + m@,
            Ok(sessions) => if exists|i: int| 0 <= i < sessions@.len() && (#[trigger] sessions@[i]).transient_capable {
                r matches Ok(s) && exists|i: int|
                    0 <= i < sessions@.len() && sessions@[i].transient_capable && (forall|j: int|
                        0 <= j < i ==> !(#[trigger] sessions@[j]).transient_capable) && s == sessions@[i].session
            } else {
                r matches Err(e) && e.code@ == RELAY_ERROR_NOT_CONNECTED@ && e.message@
                    == "no transient-capable session found for target user"@
            },
        },
{
    match resolved {
        Err(m) => {
            let msg = crate::text::join2("resolve sessions: ", m.as_str());
            Err(RelayError::new(RELAY_ERROR_NOT_CONNECTED, msg.as_str()))
        },
        Ok(sessions) => match pick_transient_session(&sessions) {
            Some(s) => Ok(s),
            None => Err(
                RelayError::new(
                    RELAY_ERROR_NOT_CONNECTED,
                    "no transient-capable session found for target user",
                ),
            ),
        },
    }
}

/// Where opening an outgoing relay connection stands.
#[derive(Clone, Copy, Debug, PartialEq, Eq, Structural)]
pub enum OpenStage {
    /// Waiting for the target's session and this client's own.
    Resolving,
    /// The connection is registered and OPEN is being sent.
    SendingOpen,
    /// OPEN went out; waiting for OPEN_ACK.
    AwaitingAck,
    /// Done, one way or the other.
    Finished,
}

/// What the caller reports back while opening.
#[derive(Debug)]
pub enum OpenEvent {
    /// The target session (`connect_target`'s result) and this client's own
    /// session, if it is logged in.
    Resolved { target: Result<SessionRef, RelayError>, own: Option<SessionRef> },
    /// Sending OPEN finished.
    OpenSent(Result<(), RelayError>),
    /// OPEN_ACK arrived.
    OpenAcked,
    /// `open_timeout_ms` passed without OPEN_ACK.
    TimedOut,
}

/// What the caller does next while opening.
#[derive(Debug)]
pub enum OpenAction {
    /// Register a new connection (opening) under a fresh relay ID, then send
    /// OPEN from `own` to `target`.
    RegisterAndSend { target: SessionRef, own: SessionRef },
    /// Start the send loop and wait for OPEN_ACK, at most `open_timeout_ms`.
    AwaitAck,
    /// Nothing was registered; the connect fails with this error.
    Fail(RelayError),
    /// Remove the connection from the registry; the connect fails with this error.
    RemoveAndFail(RelayError),
    /// Close the connection with this error; the connect fails with it.
    CloseAndFail(RelayError),
    /// The connection is open; the connect returns it.
    Connected,
    /// The report does not belong to this stage; nothing to do.
    Ignore,
}

/// One step of opening an outgoing relay connection: resolve the target and
/// this client's session (failing with `not_connected` when either is
/// missing), register the connection and send OPEN, remove it again when the
/// send fails, and close it with `open_timeout` when no OPEN_ACK comes in time.
pub fn open_step(stage: OpenStage, event: OpenEvent) -> (r: (OpenStage, OpenAction))
    ensures
        match (stage, event) {
            (OpenStage::Resolving, OpenEvent::Resolved { target, own }) => match target {
                Err(e) => r == (OpenStage::Finished, OpenAction::Fail(e)),
                Ok(t) => match own {
                    None => {
                        &&& r.0 == OpenStage::Finished
                        &&& r.1 matches OpenAction::Fail(e) && e.code@ == RELAY_ERROR_NOT_CONNECTED@
                            && e.message@ == "client not logged in"@
                    },
                    Some(o) => r == (OpenStage::SendingOpen, OpenAction::RegisterAndSend { target: t, own: o }),
                },
            },
            (OpenStage::SendingOpen, OpenEvent::OpenSent(sent)) => match sent {
                Ok(()) => r == (OpenStage::AwaitingAck, OpenAction::AwaitAck),
                Err(e) => r == (OpenStage::Finished, OpenAction::RemoveAndFail(e)),
            },
            (OpenStage::AwaitingAck, OpenEvent::OpenAcked) => r == (OpenStage::Finished, OpenAction::Connected),
            (OpenStage::AwaitingAck, OpenEvent::TimedOut) => {
                &&& r.0 == OpenStage::Finished
                &&& r.1 matches OpenAction::CloseAndFail(e) && e.code@ == RELAY_ERROR_OPEN_TIMEOUT@
                    && e.message@ == "OPEN timeout waiting for OPEN_ACK"@
            },
            _ => r == (stage, OpenAction::Ignore),
        },
{
    match stage {
        OpenStage::Resolving => match event {
            OpenEvent::Resolved { target, own } => match target {
                Err(e) => (OpenStage::Finished, OpenAction::Fail(e)),
                Ok(t) => match own {
                    None => (
                        OpenStage::Finished,
                        OpenAction::Fail(RelayError::new(RELAY_ERROR_NOT_CONNECTED, "client not logged in")),
                    ),
                    Some(o) => (OpenStage::SendingOpen, OpenAction::RegisterAndSend { target: t, own: o }),
                },
            },
            _ => (stage, OpenAction::Ignore),
        },
        OpenStage::SendingOpen => match event {
            OpenEvent::OpenSent(sent) => match sent {
                Ok(()) => (OpenStage::AwaitingAck, OpenAction::AwaitAck),
                Err(e) => (OpenStage::Finished, OpenAction::RemoveAndFail(e)),
            },
            _ => (stage, OpenAction::Ignore),
        },
        OpenStage::AwaitingAck => match event {
            OpenEvent::OpenAcked => (OpenStage::Finished, OpenAction::Connected),
            OpenEvent::TimedOut => (
                OpenStage::Finished,
                OpenAction::CloseAndFail(
                    RelayError::new(RELAY_ERROR_OPEN_TIMEOUT, "OPEN timeout waiting for OPEN_ACK"),
                ),
            ),
            _ => (stage, OpenAction::Ignore),
        },
        OpenStage::Finished => (stage, OpenAction::Ignore),
    }
}

/// How long a receive waits: the call's timeout when given, else the
/// configured one; 0 waits without limit.
pub fn receive_wait_ms(timeout_ms: Option<u64>, config: &RelayConfig) -> (r: u64)
    ensures
        r == match timeout_ms {
            Some(t) => t,
            None => config.receive_timeout_ms,
        },
{
    match timeout_ms {
        Some(t) => t,
        None => config.receive_timeout_ms,
    }
}

/// The wire numbers of the frame kinds: OPEN 1, OPEN_ACK 2, DATA 3, ACK 4,
/// CLOSE 5, PING 6, ERROR 7; 0 and any other number read as unspecified.
pub proof fn law_relay_kind_numbers()
    ensures
        relay_kind_code(RelayKind::Unspecified) == 0,
        relay_kind_code(RelayKind::Open) == 1,
        relay_kind_code(RelayKind::OpenAck) == 2,
        relay_kind_code(RelayKind::Data) == 3,
        relay_kind_code(RelayKind::Ack) == 4,
        relay_kind_code(RelayKind::Close) == 5,
        relay_kind_code(RelayKind::Ping) == 6,
        relay_kind_code(RelayKind::Error) == 7,
        relay_kind_of_code(1) == RelayKind::Open,
        relay_kind_of_code(2) == RelayKind::OpenAck,
        relay_kind_of_code(3) == RelayKind::Data,
        relay_kind_of_code(4) == RelayKind::Ack,
        relay_kind_of_code(5) == RelayKind::Close,
        relay_kind_of_code(6) == RelayKind::Ping,
        relay_kind_of_code(7) == RelayKind::Error,
        forall|c: i32| (c < 1 || c > 7) ==> #[trigger] relay_kind_of_code(c) == RelayKind::Unspecified,
{
}

} // verus!
