//! The WebSocket protocol's messages (client.proto): what the client sends in a
//! `ClientEnvelope` and what the server sends in a `ServerEnvelope`. Bytes on the
//! wire are produced and parsed outside the library; these are the decoded values.

use vstd::prelude::*;

verus! {

/// `ClientDeliveryMode` numbers.
pub const DELIVERY_MODE_UNSPECIFIED: i32 = 0;
pub const DELIVERY_MODE_BEST_EFFORT: i32 = 1;
pub const DELIVERY_MODE_ROUTE_RETRY: i32 = 2;

/// `ClientDeliveryKind` numbers; a plain `send_message` leaves the kind at 0.
pub const DELIVERY_KIND_UNSPECIFIED: i32 = 0;
pub const DELIVERY_KIND_PERSISTENT: i32 = 1;
pub const DELIVERY_KIND_TRANSIENT: i32 = 2;

/// `AttachmentType` numbers; 0 (unspecified) lists every type.
pub const ATTACHMENT_TYPE_UNSPECIFIED: i32 = 0;
pub const ATTACHMENT_TYPE_CHANNEL_MANAGER: i32 = 1;
pub const ATTACHMENT_TYPE_CHANNEL_WRITER: i32 = 2;
pub const ATTACHMENT_TYPE_CHANNEL_SUBSCRIPTION: i32 = 3;
pub const ATTACHMENT_TYPE_USER_BLACKLIST: i32 = 4;

#[derive(Clone, Debug, Default, PartialEq, Eq)]
pub struct UserRef {
    pub node_id: i64,
    pub user_id: i64,
}

#[derive(Clone, Debug, Default, PartialEq, Eq)]
pub struct MessageCursor {
    pub node_id: i64,
    pub seq: i64,
}

#[derive(Clone, Debug, Default, PartialEq, Eq)]
pub struct SessionRef {
    pub serving_node_id: i64,
    pub session_id: String,
}

#[derive(Clone, Debug, Default, PartialEq, Eq)]
pub struct User {
    pub node_id: i64,
    pub user_id: i64,
    pub username: String,
    pub role: String,
    pub profile_json: Vec<u8>,
    pub system_reserved: bool,
    pub created_at: String,
    pub updated_at: String,
    pub origin_node_id: i64,
    pub login_name: String,
}

#[derive(Clone, Debug, Default, PartialEq, Eq)]
pub struct UserMetadata {
    pub owner: Option<UserRef>,
    pub key: String,
    pub value: Vec<u8>,
    pub updated_at: String,
    pub deleted_at: String,
    pub expires_at: String,
    pub origin_node_id: i64,
}

#[derive(Clone, Debug, Default, PartialEq, Eq)]
pub struct Message {
    pub recipient: Option<UserRef>,
    pub node_id: i64,
    pub seq: i64,
    pub sender: Option<UserRef>,
    pub body: Vec<u8>,
    pub created_at_hlc: String,
}

#[derive(Clone, Debug, Default, PartialEq, Eq)]
pub struct Packet {
    pub packet_id: u64,
    pub source_node_id: i64,
    pub target_node_id: i64,
    pub recipient: Option<UserRef>,
    pub sender: Option<UserRef>,
    pub body: Vec<u8>,
    pub delivery_mode: i32,
    pub target_session: Option<SessionRef>,
}

#[derive(Clone, Debug, Default, PartialEq, Eq)]
pub struct TransientAccepted {
    pub packet_id: u64,
    pub source_node_id: i64,
    pub target_node_id: i64,
    pub recipient: Option<UserRef>,
    pub delivery_mode: i32,
    pub target_session: Option<SessionRef>,
}

#[derive(Clone, Debug, Default, PartialEq, Eq)]
pub struct OnlineNodePresence {
    pub serving_node_id: i64,
    pub session_count: i32,
    pub transport_hint: String,
}

#[derive(Clone, Debug, Default, PartialEq, Eq)]
pub struct ResolvedSession {
    pub session: Option<SessionRef>,
    pub transport: String,
    pub transient_capable: bool,
}

#[derive(Clone, Debug, Default, PartialEq, Eq)]
pub struct Attachment {
    pub owner: Option<UserRef>,
    pub subject: Option<UserRef>,
    pub attachment_type: i32,
    pub config_json: Vec<u8>,
    pub attached_at: String,
    pub deleted_at: String,
    pub origin_node_id: i64,
}

#[derive(Clone, Debug, Default, PartialEq, Eq)]
pub struct Event {
    pub sequence: i64,
    pub event_id: i64,
    pub event_type: String,
    pub aggregate: String,
    pub aggregate_node_id: i64,
    pub aggregate_id: i64,
    pub hlc: String,
    pub origin_node_id: i64,
    pub event_json: Vec<u8>,
}

#[derive(Clone, Debug, Default, PartialEq, Eq)]
pub struct ClusterNode {
    pub node_id: i64,
    pub is_local: bool,
    pub configured_url: String,
    pub source: String,
}

#[derive(Clone, Debug, Default, PartialEq, Eq)]
pub struct LoggedInUser {
    pub node_id: i64,
    pub user_id: i64,
    pub username: String,
    pub login_name: String,
}

#[derive(Clone, Debug, Default, PartialEq, Eq)]
pub struct MessageTrimStatus {
    pub trimmed_total: i64,
    pub last_trimmed_at: String,
}

#[derive(Clone, Debug, Default, PartialEq, Eq)]
pub struct EventLogTrimStatus {
    pub trimmed_total: i64,
    pub last_trimmed_at: String,
}

#[derive(Clone, Debug, Default, PartialEq, Eq)]
pub struct ProjectionStatus {
    pub pending_total: i64,
    pub last_failed_at: String,
}

#[derive(Clone, Debug, Default, PartialEq, Eq)]
pub struct PeerOriginStatus {
    pub origin_node_id: i64,
    pub acked_event_id: i64,
    pub applied_event_id: i64,
    pub unconfirmed_events: i64,
    pub cursor_updated_at: String,
    pub remote_last_event_id: u64,
    pub pending_catchup: bool,
}

#[derive(Clone, Debug, Default, PartialEq, Eq)]
pub struct PeerStatus {
    pub node_id: i64,
    pub configured_url: String,
    pub source: String,
    pub discovered_url: String,
    pub discovery_state: String,
    pub last_discovered_at: String,
    pub last_connected_at: String,
    pub last_discovery_error: String,
    pub connected: bool,
    pub session_direction: String,
    pub origins: Vec<PeerOriginStatus>,
    pub pending_snapshot_partitions: i32,
    pub remote_snapshot_version: String,
    pub remote_message_window_size: i32,
    pub clock_offset_ms: i64,
    pub last_clock_sync: String,
    pub snapshot_digests_sent_total: u64,
    pub snapshot_digests_received_total: u64,
    pub snapshot_chunks_sent_total: u64,
    pub snapshot_chunks_received_total: u64,
    pub last_snapshot_digest_at: String,
    pub last_snapshot_chunk_at: String,
}

#[derive(Clone, Debug, Default, PartialEq, Eq)]
pub struct OperationsStatus {
    pub node_id: i64,
    pub message_window_size: i32,
    pub last_event_sequence: i64,
    pub write_gate_ready: bool,
    pub conflict_total: i64,
    pub message_trim: Option<MessageTrimStatus>,
    pub projection: Option<ProjectionStatus>,
    pub peers: Vec<PeerStatus>,
    pub event_log_trim: Option<EventLogTrimStatus>,
}

/// A wrapped optional text field of an update.
#[derive(Clone, Debug, Default, PartialEq, Eq)]
pub struct StringField {
    pub value: String,
}

/// A wrapped optional bytes field of an update.
#[derive(Clone, Debug, Default, PartialEq, Eq)]
pub struct BytesField {
    pub value: Vec<u8>,
}

// ----- client to server -----

#[derive(Clone, Debug, Default, PartialEq, Eq)]
pub struct LoginRequest {
    pub user: Option<UserRef>,
    pub login_name: String,
    pub password: String,
    pub seen_messages: Vec<MessageCursor>,
    pub transient_only: bool,
}

#[derive(Clone, Debug, Default, PartialEq, Eq)]
pub struct SendMessageRequest {
    pub request_id: u64,
    pub target: Option<UserRef>,
    pub body: Vec<u8>,
    pub delivery_kind: i32,
    pub delivery_mode: i32,
    pub sync_mode: i32,
    pub target_session: Option<SessionRef>,
}

#[derive(Clone, Debug, Default, PartialEq, Eq)]
pub struct CreateUserRequest {
    pub request_id: u64,
    pub username: String,
    pub password: String,
    pub profile_json: Vec<u8>,
    pub role: String,
    pub login_name: String,
}

#[derive(Clone, Debug, Default, PartialEq, Eq)]
pub struct UpdateUserRequest {
    pub request_id: u64,
    pub user: Option<UserRef>,
    pub username: Option<StringField>,
    pub login_name: Option<StringField>,
    pub password: Option<StringField>,
    pub profile_json: Option<BytesField>,
    pub role: Option<StringField>,
}

#[derive(Clone, Debug, Default, PartialEq, Eq)]
pub struct UpsertUserAttachmentRequest {
    pub request_id: u64,
    pub owner: Option<UserRef>,
    pub subject: Option<UserRef>,
    pub attachment_type: i32,
    pub config_json: Vec<u8>,
}

#[derive(Clone, Debug, Default, PartialEq, Eq)]
pub struct DeleteUserAttachmentRequest {
    pub request_id: u64,
    pub owner: Option<UserRef>,
    pub subject: Option<UserRef>,
    pub attachment_type: i32,
}

#[derive(Clone, Debug, Default, PartialEq, Eq)]
pub struct UpsertUserMetadataRequest {
    pub request_id: u64,
    pub owner: Option<UserRef>,
    pub key: String,
    pub value: Vec<u8>,
    pub expires_at: Option<StringField>,
}

#[derive(Clone, Debug, Default, PartialEq, Eq)]
pub struct ScanUserMetadataRequest {
    pub request_id: u64,
    pub owner: Option<UserRef>,
    pub prefix: String,
    pub after: String,
    pub limit: i32,
}

/// The body of a `ClientEnvelope`.
#[derive(Clone, Debug, PartialEq, Eq)]
pub enum ClientBody {
    Login(LoginRequest),
    SendMessage(SendMessageRequest),
    AckMessage { cursor: Option<MessageCursor> },
    Ping { request_id: u64 },
    CreateUser(CreateUserRequest),
    GetUser { request_id: u64, user: Option<UserRef> },
    UpdateUser(UpdateUserRequest),
    DeleteUser { request_id: u64, user: Option<UserRef> },
    ListMessages { request_id: u64, user: Option<UserRef>, limit: i32 },
    UpsertUserAttachment(UpsertUserAttachmentRequest),
    DeleteUserAttachment(DeleteUserAttachmentRequest),
    ListUserAttachments { request_id: u64, owner: Option<UserRef>, attachment_type: i32 },
    ListEvents { request_id: u64, after: i64, limit: i32 },
    OperationsStatus { request_id: u64 },
    Metrics { request_id: u64 },
    ListClusterNodes { request_id: u64 },
    ListNodeLoggedInUsers { request_id: u64, node_id: i64 },
    ResolveUserSessions { request_id: u64, user: Option<UserRef> },
    GetUserMetadata { request_id: u64, owner: Option<UserRef>, key: String },
    UpsertUserMetadata(UpsertUserMetadataRequest),
    DeleteUserMetadata { request_id: u64, owner: Option<UserRef>, key: String },
    ScanUserMetadata(ScanUserMetadataRequest),
}

// ----- server to client -----

#[derive(Clone, Debug, Default, PartialEq, Eq)]
pub struct LoginResponse {
    pub user: Option<User>,
    pub protocol_version: String,
    pub session_ref: Option<SessionRef>,
}

/// The payload of a `SendMessageResponse`.
#[derive(Clone, Debug, PartialEq, Eq)]
pub enum SendMessageResult {
    Message(Message),
    TransientAccepted(TransientAccepted),
}

#[derive(Clone, Debug, Default, PartialEq, Eq)]
pub struct ResolveUserSessionsResponse {
    pub request_id: u64,
    pub user: Option<UserRef>,
    pub presence: Vec<OnlineNodePresence>,
    pub items: Vec<ResolvedSession>,
}

#[derive(Clone, Debug, Default, PartialEq, Eq)]
pub struct ScanUserMetadataResponse {
    pub request_id: u64,
    pub items: Vec<UserMetadata>,
    pub count: i32,
    pub next_after: String,
}

/// The body of a `ServerEnvelope`.
#[derive(Clone, Debug, PartialEq, Eq)]
pub enum ServerBody {
    LoginResponse(LoginResponse),
    MessagePushed { message: Option<Message> },
    SendMessageResponse { request_id: u64, body: Option<SendMessageResult> },
    Error { code: String, message: String, request_id: u64 },
    Pong { request_id: u64 },
    PacketPushed { packet: Option<Packet> },
    CreateUserResponse { request_id: u64, user: Option<User> },
    GetUserResponse { request_id: u64, user: Option<User> },
    UpdateUserResponse { request_id: u64, user: Option<User> },
    DeleteUserResponse { request_id: u64, status: String, user: Option<UserRef> },
    ListMessagesResponse { request_id: u64, items: Vec<Message> },
    UpsertUserAttachmentResponse { request_id: u64, attachment: Option<Attachment> },
    DeleteUserAttachmentResponse { request_id: u64, attachment: Option<Attachment> },
    ListUserAttachmentsResponse { request_id: u64, items: Vec<Attachment> },
    ListEventsResponse { request_id: u64, items: Vec<Event> },
    OperationsStatusResponse { request_id: u64, status: Option<OperationsStatus> },
    MetricsResponse { request_id: u64, text: String },
    ListClusterNodesResponse { request_id: u64, items: Vec<ClusterNode> },
    ListNodeLoggedInUsersResponse { request_id: u64, items: Vec<LoggedInUser> },
    ResolveUserSessionsResponse(ResolveUserSessionsResponse),
    GetUserMetadataResponse { request_id: u64, metadata: Option<UserMetadata> },
    UpsertUserMetadataResponse { request_id: u64, metadata: Option<UserMetadata> },
    DeleteUserMetadataResponse { request_id: u64, metadata: Option<UserMetadata> },
    ScanUserMetadataResponse(ScanUserMetadataResponse),
}

} // verus!
