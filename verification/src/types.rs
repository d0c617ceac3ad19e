//! The SDK's public data types and configuration defaults.

use vstd::prelude::*;

use crate::password::PasswordInput;

verus! {

/// Login credentials: node ID, user ID and password.
#[derive(Clone, Debug)]
pub struct Credentials {
    /// The cluster node the user belongs to.
    pub node_id: i64,
    /// The user's ID on that node.
    pub user_id: i64,
    /// The password, plain-hashed or already hashed.
    pub password: PasswordInput,
}

/// Identifies one user by node and user ID.
#[derive(Clone, Debug, Default, PartialEq, Eq, Hash)]
pub struct UserRef {
    /// The node the user belongs to.
    pub node_id: i64,
    /// The user's ID.
    pub user_id: i64,
}

/// Where a message is stored on the server: node and sequence number.
#[derive(Clone, Debug, Default, PartialEq, Eq, Hash)]
pub struct MessageCursor {
    /// The node that holds the message.
    pub node_id: i64,
    /// The message's sequence number on that node.
    pub seq: i64,
}

/// Identifies one online client session.
#[derive(Clone, Debug, Default, PartialEq, Eq, Hash)]
pub struct SessionRef {
    /// The node serving the session.
    pub serving_node_id: i64,
    /// The session's identifier.
    pub session_id: String,
}

/// A copy of a session reference.
pub fn copy_session_ref(s: &SessionRef) -> (r: SessionRef)
    ensures
        r == *s,
{
    SessionRef { serving_node_id: s.serving_node_id, session_id: s.session_id.clone() }
}

/// How a transient packet is delivered.
#[derive(Clone, Copy, Debug, Default, PartialEq, Eq, Structural)]
pub enum DeliveryMode {
    /// Not chosen; refused when sending a packet.
    #[default]
    Unspecified,
    /// One attempt, no guarantee.
    BestEffort,
    /// The routing layer retries.
    RouteRetry,
}

/// The wire name of a delivery mode.
pub open spec fn delivery_mode_name(mode: DeliveryMode) -> Seq<char> {
    match mode {
        DeliveryMode::Unspecified => ""@,
        DeliveryMode::BestEffort => "best_effort"@,
        DeliveryMode::RouteRetry => "route_retry"@,
    }
}

impl DeliveryMode {
    /// The mode's wire name: `""`, `best_effort` or `route_retry`.
    pub fn as_str(self) -> (r: &'static str)
        ensures
            r@ == delivery_mode_name(self),
    {
        match self {
            DeliveryMode::Unspecified => "",
            DeliveryMode::BestEffort => "best_effort",
            DeliveryMode::RouteRetry => "route_retry",
        }
    }
}

/// The kind of relation an attachment records between two users.
#[derive(Clone, Copy, Debug, Default, PartialEq, Eq, Structural)]
pub enum AttachmentType {
    /// The subject manages the owner channel.
    #[default]
    ChannelManager,
    /// The subject may write to the owner channel.
    ChannelWriter,
    /// The owner subscribes to the subject channel.
    ChannelSubscription,
    /// The owner blocks the subject.
    UserBlacklist,
}

/// The wire name of an attachment type.
pub open spec fn attachment_type_name(t: AttachmentType) -> Seq<char> {
    match t {
        AttachmentType::ChannelManager => "channel_manager"@,
        AttachmentType::ChannelWriter => "channel_writer"@,
        AttachmentType::ChannelSubscription => "channel_subscription"@,
        AttachmentType::UserBlacklist => "user_blacklist"@,
    }
}

impl AttachmentType {
    /// The type's wire name, such as `channel_subscription`.
    pub fn as_str(self) -> (r: &'static str)
        ensures
            r@ == attachment_type_name(self),
    {
        match self {
            AttachmentType::ChannelManager => "channel_manager",
            AttachmentType::ChannelWriter => "channel_writer",
            AttachmentType::ChannelSubscription => "channel_subscription",
            AttachmentType::UserBlacklist => "user_blacklist",
        }
    }
}

/// The wire names: delivery modes are `""`, `best_effort` and `route_retry`;
/// attachment types are `channel_manager`, `channel_writer`,
/// `channel_subscription` and `user_blacklist`.
pub proof fn law_wire_names()
    ensures
        delivery_mode_name(DeliveryMode::Unspecified) == ""@,
        delivery_mode_name(DeliveryMode::BestEffort) == "best_effort"@,
        delivery_mode_name(DeliveryMode::RouteRetry) == "route_retry"@,
        attachment_type_name(AttachmentType::ChannelManager) == "channel_manager"@,
        attachment_type_name(AttachmentType::ChannelWriter) == "channel_writer"@,
        attachment_type_name(AttachmentType::ChannelSubscription) == "channel_subscription"@,
        attachment_type_name(AttachmentType::UserBlacklist) == "user_blacklist"@,
{
}

/// A user or channel.
#[derive(Clone, Debug, Default, PartialEq, Eq)]
pub struct User {
    pub node_id: i64,
    pub user_id: i64,
    pub username: String,
    pub role: String,
    pub profile_json: Vec<u8>,
    pub system_reserved: bool,
    pub created_at: String,
    pub updated_at: String,
    pub origin_node_id: i64,
    pub login_name: String,
}

/// A key/value entry attached to a user.
#[derive(Clone, Debug, Default, PartialEq, Eq)]
pub struct UserMetadata {
    pub owner: UserRef,
    pub key: String,
    pub value: Vec<u8>,
    pub updated_at: String,
    pub deleted_at: String,
    pub expires_at: String,
    pub origin_node_id: i64,
}

/// One page of a metadata scan.
#[derive(Clone, Debug, Default, PartialEq, Eq)]
pub struct UserMetadataScanResult {
    pub items: Vec<UserMetadata>,
    pub count: i32,
    pub next_after: String,
}

/// A persisted message.
#[derive(Clone, Debug, Default, PartialEq, Eq)]
pub struct Message {
    pub recipient: UserRef,
    pub node_id: i64,
    pub seq: i64,
    pub sender: UserRef,
    pub body: Vec<u8>,
    pub created_at_hlc: String,
}

impl Message {
    /// The message's cursor: its node and sequence number.
    pub fn cursor(&self) -> (r: MessageCursor)
        ensures
            r.node_id == self.node_id,
            r.seq == self.seq,
    {
        MessageCursor { node_id: self.node_id, seq: self.seq }
    }
}

/// A transient packet; never persisted.
#[derive(Clone, Debug, Default, PartialEq, Eq)]
pub struct Packet {
    pub packet_id: u64,
    pub source_node_id: i64,
    pub target_node_id: i64,
    pub recipient: UserRef,
    pub sender: UserRef,
    pub body: Vec<u8>,
    pub delivery_mode: DeliveryMode,
    pub target_session: Option<SessionRef>,
}

/// The server's acknowledgement that it accepted a transient packet for routing.
#[derive(Clone, Debug, Default, PartialEq, Eq)]
pub struct RelayAccepted {
    pub packet_id: u64,
    pub source_node_id: i64,
    pub target_node_id: i64,
    pub recipient: UserRef,
    pub delivery_mode: DeliveryMode,
    pub target_session: Option<SessionRef>,
}

/// A relation between two users (subscription, blacklist entry, channel role).
#[derive(Clone, Debug, Default, PartialEq, Eq)]
pub struct Attachment {
    pub owner: UserRef,
    pub subject: UserRef,
    pub attachment_type: AttachmentType,
    pub config_json: Vec<u8>,
    pub attached_at: String,
    pub deleted_at: String,
    pub origin_node_id: i64,
}

/// A user's subscription to a channel.
#[derive(Clone, Debug, Default, PartialEq, Eq)]
pub struct Subscription {
    pub subscriber: UserRef,
    pub channel: UserRef,
    pub subscribed_at: String,
    pub deleted_at: String,
    pub origin_node_id: i64,
}

/// A user blocked by another.
#[derive(Clone, Debug, Default, PartialEq, Eq)]
pub struct BlacklistEntry {
    pub owner: UserRef,
    pub blocked: UserRef,
    pub blocked_at: String,
    pub deleted_at: String,
    pub origin_node_id: i64,
}

/// An entry of the server's event log.
#[derive(Clone, Debug, Default, PartialEq, Eq)]
pub struct Event {
    pub sequence: i64,
    pub event_id: i64,
    pub event_type: String,
    pub aggregate: String,
    pub aggregate_node_id: i64,
    pub aggregate_id: i64,
    pub hlc: String,
    pub origin_node_id: i64,
    pub event_json: Vec<u8>,
}

/// A node of the cluster.
#[derive(Clone, Debug, Default, PartialEq, Eq)]
pub struct ClusterNode {
    pub node_id: i64,
    pub is_local: bool,
    pub configured_url: String,
    pub source: String,
}

/// A user logged in on some node.
#[derive(Clone, Debug, Default, PartialEq, Eq)]
pub struct LoggedInUser {
    pub node_id: i64,
    pub user_id: i64,
    pub username: String,
    pub login_name: String,
}

/// How many sessions a user has on one serving node.
#[derive(Clone, Debug, Default, PartialEq, Eq)]
pub struct OnlineNodePresence {
    pub serving_node_id: i64,
    pub session_count: i32,
    pub transport_hint: String,
}

/// One online session of a user.
#[derive(Clone, Debug, Default, PartialEq, Eq)]
pub struct ResolvedSession {
    pub session: SessionRef,
    pub transport: String,
    pub transient_capable: bool,
}

/// A user's presence and sessions.
#[derive(Clone, Debug, Default, PartialEq, Eq)]
pub struct ResolvedUserSessions {
    pub user: UserRef,
    pub presence: Vec<OnlineNodePresence>,
    pub sessions: Vec<ResolvedSession>,
}

/// How many messages were trimmed, and when last.
#[derive(Clone, Debug, Default, PartialEq, Eq)]
pub struct MessageTrimStatus {
    pub trimmed_total: i64,
    pub last_trimmed_at: String,
}

/// How many events were trimmed from the log, and when last.
#[derive(Clone, Debug, Default, PartialEq, Eq)]
pub struct EventLogTrimStatus {
    pub trimmed_total: i64,
    pub last_trimmed_at: String,
}

/// Projection work still pending, and the last failure.
#[derive(Clone, Debug, Default, PartialEq, Eq)]
pub struct ProjectionStatus {
    pub pending_total: i64,
    pub last_failed_at: String,
}

/// What a peer has acknowledged and applied of one origin node.
#[derive(Clone, Debug, Default, PartialEq, Eq)]
pub struct PeerOriginStatus {
    pub origin_node_id: i64,
    pub acked_event_id: i64,
    pub applied_event_id: i64,
    pub unconfirmed_events: i64,
    pub cursor_updated_at: String,
    pub remote_last_event_id: u64,
    pub pending_catchup: bool,
}

/// One peer of the node: how it was found and how its connection stands.
#[derive(Clone, Debug, Default, PartialEq, Eq)]
pub struct PeerStatus {
    pub node_id: i64,
    pub configured_url: String,
    pub source: String,
    pub discovered_url: String,
    pub discovery_state: String,
    pub last_discovered_at: String,
    pub last_connected_at: String,
    pub last_discovery_error: String,
    pub connected: bool,
    pub session_direction: String,
    pub origins: Vec<PeerOriginStatus>,
    pub pending_snapshot_partitions: i32,
    pub remote_snapshot_version: String,
    pub remote_message_window_size: i32,
    pub clock_offset_ms: i64,
    pub last_clock_sync: String,
    pub snapshot_digests_sent_total: u64,
    pub snapshot_digests_received_total: u64,
    pub snapshot_chunks_sent_total: u64,
    pub snapshot_chunks_received_total: u64,
    pub last_snapshot_digest_at: String,
    pub last_snapshot_chunk_at: String,
}

/// A node's operational state.
#[derive(Clone, Debug, Default, PartialEq, Eq)]
pub struct OperationsStatus {
    pub node_id: i64,
    pub message_window_size: i32,
    pub last_event_sequence: i64,
    pub write_gate_ready: bool,
    pub conflict_total: i64,
    pub message_trim: MessageTrimStatus,
    pub projection: ProjectionStatus,
    pub peers: Vec<PeerStatus>,
    pub event_log_trim: Option<EventLogTrimStatus>,
}

/// The outcome of deleting a user.
#[derive(Clone, Debug, Default, PartialEq, Eq)]
pub struct DeleteUserResult {
    pub status: String,
    pub user: UserRef,
}

/// What a successful WebSocket login returns.
#[derive(Clone, Debug, Default, PartialEq, Eq)]
pub struct LoginInfo {
    pub user: User,
    pub protocol_version: String,
    pub session_ref: SessionRef,
}

/// Parameters of `create_user`.
#[derive(Clone, Debug, Default)]
pub struct CreateUserRequest {
    pub username: String,
    pub login_name: Option<String>,
    pub password: Option<PasswordInput>,
    pub profile_json: Vec<u8>,
    pub role: String,
}

/// Parameters of `update_user`; only the fields given are changed.
#[derive(Clone, Debug, Default)]
pub struct UpdateUserRequest {
    pub username: Option<String>,
    pub login_name: Option<String>,
    pub password: Option<PasswordInput>,
    pub profile_json: Option<Vec<u8>>,
    pub role: Option<String>,
}

/// Parameters of `upsert_user_metadata`.
#[derive(Clone, Debug, Default)]
pub struct UpsertUserMetadataRequest {
    pub value: Vec<u8>,
    pub expires_at: Option<String>,
}

/// Parameters of `scan_user_metadata`.
#[derive(Clone, Debug, Default)]
pub struct ScanUserMetadataRequest {
    pub prefix: String,
    pub after: String,
    pub limit: i32,
}

/// Filters of `list_users`: a blank name and a `{0, 0}` uid filter nothing.
#[derive(Clone, Debug, Default)]
pub struct ListUsersRequest {
    pub name: String,
    pub uid: UserRef,
}

/// Default values of the client configuration (durations in milliseconds).
#[derive(Clone, Debug)]
pub struct ClientConfigDefaults {
    pub reconnect: bool,
    pub initial_reconnect_delay: u64,
    pub max_reconnect_delay: u64,
    pub ping_interval: u64,
    pub request_timeout: u64,
    pub ack_messages: bool,
    pub transient_only: bool,
    pub realtime_stream: bool,
    pub event_channel_capacity: usize,
}

/// The documented defaults: reconnect after 1 s doubling up to 30 s, ping every
/// 30 s, 10 s request timeout, ACK on, 256 buffered events.
pub open spec fn is_default_client_config(d: ClientConfigDefaults) -> bool {
    &&& d.reconnect
    &&& d.initial_reconnect_delay == 1000
    &&& d.max_reconnect_delay == 30000
    &&& d.ping_interval == 30000
    &&& d.request_timeout == 10000
    &&& d.ack_messages
    &&& !d.transient_only
    &&& !d.realtime_stream
    &&& d.event_channel_capacity == 256
}

impl Default for ClientConfigDefaults {
    fn default() -> (r: Self)
        ensures
            is_default_client_config(r),
    {
        ClientConfigDefaults {
            reconnect: true,
            initial_reconnect_delay: 1000,
            max_reconnect_delay: 30000,
            ping_interval: 30000,
            request_timeout: 10000,
            ack_messages: true,
            transient_only: false,
            realtime_stream: false,
            event_channel_capacity: 256,
        }
    }
}

} // verus!
