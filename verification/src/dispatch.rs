//! What the client does with each server envelope once logged in, and the
//! store-then-acknowledge sequence for persisted messages.

use vstd::prelude::*;

use crate::client::{copy_error, ClientEvent};
use crate::errors::{is_protocol, is_store, Error, ServerError};
use crate::mapping::{
    attachment_from_proto, attachment_of, attachment_type_of_code, attachments_from_proto,
    cluster_node_of, cluster_nodes_from_proto, event_of, events_from_proto, first_bad_session,
    first_unknown_type, logged_in_user_of, logged_in_users_from_proto, message_from_proto,
    message_of, messages_from_proto, metadata_of, operations_status_from_proto,
    operations_status_matches, optional_session_problem, packet_from_proto, packet_of,
    relay_accepted_from_proto, relay_accepted_of, resolved_user_sessions_from_proto,
    resolved_user_sessions_of, scan_result_of, session_ref_problem, unsupported_attachment_type,
    user_from_proto, user_metadata_from_proto, user_metadata_scan_result_from_proto, user_of,
    user_ref_from_proto, user_ref_of,
};
use crate::types::{
    Attachment, ClusterNode, DeleteUserResult, Event, LoggedInUser, Message, MessageCursor,
    OperationsStatus, RelayAccepted, ResolvedUserSessions, User, UserMetadata,
    UserMetadataScanResult,
};
use crate::wire;

verus! {

/// The answer to a request, by kind.
#[derive(Debug)]
pub enum RpcValue {
    Unit,
    Message(Message),
    RelayAccepted(RelayAccepted),
    User(User),
    DeleteUserResult(DeleteUserResult),
    UserMetadata(UserMetadata),
    UserMetadataScanResult(UserMetadataScanResult),
    Attachment(Attachment),
    Attachments(Vec<Attachment>),
    Messages(Vec<Message>),
    Events(Vec<Event>),
    ClusterNodes(Vec<ClusterNode>),
    LoggedInUsers(Vec<LoggedInUser>),
    ResolvedUserSessions(ResolvedUserSessions),
    OperationsStatus(OperationsStatus),
    Metrics(String),
}

/// What to do with one server envelope.
#[derive(Debug)]
pub enum EnvelopePlan {
    /// Store a pushed message, acknowledge it if configured, then report it.
    StorePushed(Message),
    /// Report an event.
    Emit(ClientEvent),
    /// Store the message a send returned, then answer request `request_id` with it.
    StoreReply { request_id: u64, message: Message },
    /// Answer request `request_id` (ignored when no such request waits).
    Resolve { request_id: u64, result: Result<RpcValue, Error> },
}

/// A resolution of request `id` with value `v`.
pub open spec fn resolves_ok(r: Result<EnvelopePlan, Error>, id: u64, v: RpcValue) -> bool {
    r matches Ok(EnvelopePlan::Resolve { request_id, result: Ok(x) }) && request_id == id && x == v
}

/// The plan for an envelope carrying `user` in answer to request `id`.
pub open spec fn user_reply(r: Result<EnvelopePlan, Error>, id: u64, user: Option<wire::User>) -> bool {
    match user {
        Some(w) => resolves_ok(r, id, RpcValue::User(user_of(w))),
        None => r matches Err(e) && is_protocol(e, "missing user"@),
    }
}

/// The plan for an envelope carrying metadata `m` in answer to request `id`.
pub open spec fn metadata_reply(
    r: Result<EnvelopePlan, Error>,
    id: u64,
    m: Option<wire::UserMetadata>,
) -> bool {
    match m {
        Some(w) => resolves_ok(r, id, RpcValue::UserMetadata(metadata_of(w))),
        None => r matches Err(e) && is_protocol(e, "missing user_metadata"@),
    }
}

/// The plan for an envelope carrying attachment `a` in answer to request `id`.
pub open spec fn attachment_reply(
    r: Result<EnvelopePlan, Error>,
    id: u64,
    a: Option<wire::Attachment>,
) -> bool {
    match a {
        None => r matches Err(e) && is_protocol(e, "missing attachment"@),
        Some(w) => match attachment_type_of_code(w.attachment_type) {
            Some(_) => resolves_ok(r, id, RpcValue::Attachment(attachment_of(w))),
            None => r matches Err(e) && is_protocol(e, unsupported_attachment_type(w.attachment_type)),
        },
    }
}

/// The plan for each server envelope. A push of a message is stored; a push of
/// a packet is reported as is; the answer to a request resolves it, a message
/// sent being stored first; an error with a request ID answers that request,
/// one without is returned; a second login response and an empty envelope
/// are protocol errors. A conversion that fails returns its error.
pub open spec fn plan_matches(body: Option<wire::ServerBody>, r: Result<EnvelopePlan, Error>) -> bool {
    match body {
        None => r matches Err(e) && is_protocol(e, "unsupported server envelope"@),
        Some(b) => match b {
            wire::ServerBody::MessagePushed { message } => match message {
                Some(w) => r matches Ok(EnvelopePlan::StorePushed(m)) && m == message_of(w),
                None => r matches Err(e) && is_protocol(e, "missing message"@),
            },
            wire::ServerBody::PacketPushed { packet } => match packet {
                None => r matches Err(e) && is_protocol(e, "missing packet"@),
                Some(w) => match optional_session_problem(w.target_session) {
                    Some(m) => r matches Err(e) && is_protocol(e, m),
                    None => r matches Ok(EnvelopePlan::Emit(ClientEvent::Packet(p))) && p
                        == packet_of(w),
                },
            },
            wire::ServerBody::SendMessageResponse { request_id, body } => match body {
                Some(wire::SendMessageResult::Message(w)) => r matches Ok(
                    EnvelopePlan::StoreReply { request_id: id, message: m },
                ) && id == request_id && m == message_of(w),
                Some(wire::SendMessageResult::TransientAccepted(w)) => match optional_session_problem(
                    w.target_session,
                ) {
                    Some(m) => r matches Err(e) && is_protocol(e, m),
                    None => resolves_ok(r, request_id, RpcValue::RelayAccepted(relay_accepted_of(w))),
                },
                None => r matches Ok(EnvelopePlan::Resolve { request_id: id, result: Err(e) }) && id
                    == request_id && is_protocol(e, "empty send_message_response"@),
            },
            wire::ServerBody::Pong { request_id } => resolves_ok(r, request_id, RpcValue::Unit),
            wire::ServerBody::CreateUserResponse { request_id, user } => user_reply(r, request_id, user),
            wire::ServerBody::GetUserResponse { request_id, user } => user_reply(r, request_id, user),
            wire::ServerBody::UpdateUserResponse { request_id, user } => user_reply(r, request_id, user),
            wire::ServerBody::DeleteUserResponse { request_id, status, user } => resolves_ok(
                r,
                request_id,
                RpcValue::DeleteUserResult(DeleteUserResult { status, user: user_ref_of(user) }),
            ),
            wire::ServerBody::GetUserMetadataResponse { request_id, metadata } => metadata_reply(
                r,
                request_id,
                metadata,
            ),
            wire::ServerBody::UpsertUserMetadataResponse { request_id, metadata } => metadata_reply(
                r,
                request_id,
                metadata,
            ),
            wire::ServerBody::DeleteUserMetadataResponse { request_id, metadata } => metadata_reply(
                r,
                request_id,
                metadata,
            ),
            wire::ServerBody::ScanUserMetadataResponse(resp) => r matches Ok(
                EnvelopePlan::Resolve { request_id: id, result: Ok(RpcValue::UserMetadataScanResult(s)) },
            ) && id == resp.request_id && scan_result_of(s, resp),
            wire::ServerBody::ListMessagesResponse { request_id, items } => r matches Ok(
                EnvelopePlan::Resolve { request_id: id, result: Ok(RpcValue::Messages(v)) },
            ) && id == request_id && v@ == items@.map_values(|m: wire::Message| message_of(m)),
            wire::ServerBody::UpsertUserAttachmentResponse { request_id, attachment } => attachment_reply(
                r,
                request_id,
                attachment,
            ),
            wire::ServerBody::DeleteUserAttachmentResponse { request_id, attachment } => attachment_reply(
                r,
                request_id,
                attachment,
            ),
            wire::ServerBody::ListUserAttachmentsResponse { request_id, items } => {
                &&& (forall|j: int| 0 <= j < items@.len() ==> (#[trigger] attachment_type_of_code(items@[j].attachment_type)) is Some)
                    ==> (r matches Ok(
                    EnvelopePlan::Resolve { request_id: id, result: Ok(RpcValue::Attachments(v)) },
                ) && id == request_id && v@ == items@.map_values(|a: wire::Attachment| attachment_of(a)))
                &&& forall|i: int| #[trigger] first_unknown_type(items@, i) ==> (r matches Err(e) && is_protocol(
                    e,
                    unsupported_attachment_type(items@[i].attachment_type),
                ))
            },
            wire::ServerBody::ListEventsResponse { request_id, items } => r matches Ok(
                EnvelopePlan::Resolve { request_id: id, result: Ok(RpcValue::Events(v)) },
            ) && id == request_id && v@ == items@.map_values(|e: wire::Event| event_of(e)),
            wire::ServerBody::ListClusterNodesResponse { request_id, items } => r matches Ok(
                EnvelopePlan::Resolve { request_id: id, result: Ok(RpcValue::ClusterNodes(v)) },
            ) && id == request_id && v@ == items@.map_values(|n: wire::ClusterNode| cluster_node_of(n)),
            wire::ServerBody::ListNodeLoggedInUsersResponse { request_id, items } => r matches Ok(
                EnvelopePlan::Resolve { request_id: id, result: Ok(RpcValue::LoggedInUsers(v)) },
            ) && id == request_id && v@ == items@.map_values(
                |u: wire::LoggedInUser| logged_in_user_of(u),
            ),
            wire::ServerBody::ResolveUserSessionsResponse(resp) => {
                &&& (forall|j: int| 0 <= j < resp.items@.len() ==> (#[trigger] session_ref_problem(resp.items@[j].session)) is None)
                    ==> (r matches Ok(
                    EnvelopePlan::Resolve { request_id: id, result: Ok(RpcValue::ResolvedUserSessions(s)) },
                ) && id == resp.request_id && resolved_user_sessions_of(s, resp))
                &&& forall|i: int| #[trigger] first_bad_session(resp.items@, i) ==> (r matches Err(e) && is_protocol(
                    e,
                    session_ref_problem(resp.items@[i].session)->0,
                ))
            },
            wire::ServerBody::OperationsStatusResponse { request_id, status } => match status {
                Some(w) => r matches Ok(
                    EnvelopePlan::Resolve { request_id: id, result: Ok(RpcValue::OperationsStatus(s)) },
                ) && id == request_id && operations_status_matches(s, w),
                None => r matches Err(e) && is_protocol(e, "missing operations status"@),
            },
            wire::ServerBody::MetricsResponse { request_id, text } => resolves_ok(
                r,
                request_id,
                RpcValue::Metrics(text),
            ),
            wire::ServerBody::Error { code, message, request_id } => {
                let e = Error::Server(ServerError { code, server_message: message, request_id });
                if request_id != 0 {
                    r matches Ok(EnvelopePlan::Resolve { request_id: id, result: Err(x) }) && id
                        == request_id && x == e
                } else {
                    r == Err::<EnvelopePlan, Error>(e)
                }
            },
            wire::ServerBody::LoginResponse(_) => r matches Err(e) && is_protocol(
                e,
                "unexpected login_response after authentication"@,
            ),
        },
    }
}

fn resolve(request_id: u64, value: RpcValue) -> (r: Result<EnvelopePlan, Error>)
    ensures
        resolves_ok(r, request_id, value),
{
    Ok(EnvelopePlan::Resolve { request_id, result: Ok(value) })
}

/// Decides what to do with a server envelope received after login.
#[verifier::rlimit(50)]
pub fn plan_server_envelope(body: Option<wire::ServerBody>) -> (r: Result<EnvelopePlan, Error>)
    ensures
        plan_matches(body, r),
{
    let body = match body {
        Some(b) => b,
        None => {
            return Err(Error::protocol("unsupported server envelope"));
        },
    };
    match body {
        wire::ServerBody::MessagePushed { message } => {
            let m = message_from_proto(message)?;
            Ok(EnvelopePlan::StorePushed(m))
        },
        wire::ServerBody::PacketPushed { packet } => {
            let p = packet_from_proto(packet)?;
            Ok(EnvelopePlan::Emit(ClientEvent::Packet(p)))
        },
        wire::ServerBody::SendMessageResponse { request_id, body } => match body {
            Some(wire::SendMessageResult::Message(w)) => {
                let m = message_from_proto(Some(w))?;
                Ok(EnvelopePlan::StoreReply { request_id, message: m })
            },
            Some(wire::SendMessageResult::TransientAccepted(w)) => {
                let a = relay_accepted_from_proto(Some(w))?;
                resolve(request_id, RpcValue::RelayAccepted(a))
            },
            None => Ok(
                EnvelopePlan::Resolve {
                    request_id,
                    result: Err(Error::protocol("empty send_message_response")),
                },
            ),
        },
        wire::ServerBody::Pong { request_id } => resolve(request_id, RpcValue::Unit),
        wire::ServerBody::CreateUserResponse { request_id, user } => {
            let u = user_from_proto(user)?;
            resolve(request_id, RpcValue::User(u))
        },
        wire::ServerBody::GetUserResponse { request_id, user } => {
            let u = user_from_proto(user)?;
            resolve(request_id, RpcValue::User(u))
        },
        wire::ServerBody::UpdateUserResponse { request_id, user } => {
            let u = user_from_proto(user)?;
            resolve(request_id, RpcValue::User(u))
        },
        wire::ServerBody::DeleteUserResponse { request_id, status, user } => {
            let user = user_ref_from_proto(user);
            resolve(request_id, RpcValue::DeleteUserResult(DeleteUserResult { status, user }))
        },
        wire::ServerBody::GetUserMetadataResponse { request_id, metadata } => {
            let m = user_metadata_from_proto(metadata)?;
            resolve(request_id, RpcValue::UserMetadata(m))
        },
        wire::ServerBody::UpsertUserMetadataResponse { request_id, metadata } => {
            let m = user_metadata_from_proto(metadata)?;
            resolve(request_id, RpcValue::UserMetadata(m))
        },
        wire::ServerBody::DeleteUserMetadataResponse { request_id, metadata } => {
            let m = user_metadata_from_proto(metadata)?;
            resolve(request_id, RpcValue::UserMetadata(m))
        },
        wire::ServerBody::ScanUserMetadataResponse(resp) => {
            let id = resp.request_id;
            let s = user_metadata_scan_result_from_proto(resp)?;
            resolve(id, RpcValue::UserMetadataScanResult(s))
        },
        wire::ServerBody::ListMessagesResponse { request_id, items } => {
            let v = messages_from_proto(items)?;
            resolve(request_id, RpcValue::Messages(v))
        },
        wire::ServerBody::UpsertUserAttachmentResponse { request_id, attachment } => {
            let a = attachment_from_proto(attachment)?;
            resolve(request_id, RpcValue::Attachment(a))
        },
        wire::ServerBody::DeleteUserAttachmentResponse { request_id, attachment } => {
            let a = attachment_from_proto(attachment)?;
            resolve(request_id, RpcValue::Attachment(a))
        },
        wire::ServerBody::ListUserAttachmentsResponse { request_id, items } => {
            let v = attachments_from_proto(items)?;
            resolve(request_id, RpcValue::Attachments(v))
        },
        wire::ServerBody::ListEventsResponse { request_id, items } => {
            let v = events_from_proto(items)?;
            resolve(request_id, RpcValue::Events(v))
        },
        wire::ServerBody::ListClusterNodesResponse { request_id, items } => {
            let v = cluster_nodes_from_proto(items)?;
            resolve(request_id, RpcValue::ClusterNodes(v))
        },
        wire::ServerBody::ListNodeLoggedInUsersResponse { request_id, items } => {
            let v = logged_in_users_from_proto(items)?;
            resolve(request_id, RpcValue::LoggedInUsers(v))
        },
        wire::ServerBody::ResolveUserSessionsResponse(resp) => {
            let id = resp.request_id;
            let s = resolved_user_sessions_from_proto(resp)?;
            resolve(id, RpcValue::ResolvedUserSessions(s))
        },
        wire::ServerBody::OperationsStatusResponse { request_id, status } => {
            let s = operations_status_from_proto(status)?;
            resolve(request_id, RpcValue::OperationsStatus(s))
        },
        wire::ServerBody::MetricsResponse { request_id, text } => resolve(
            request_id,
            RpcValue::Metrics(text),
        ),
        wire::ServerBody::Error { code, message, request_id } => {
            let e = Error::Server(ServerError { code, server_message: message, request_id });
            if request_id != 0 {
                Ok(EnvelopePlan::Resolve { request_id, result: Err(e) })
            } else {
                Err(e)
            }
        },
        wire::ServerBody::LoginResponse(_) => Err(
            Error::protocol("unexpected login_response after authentication"),
        ),
    }
}

// ----- storing a message before it is acknowledged or answered -----

/// Why a message is being stored.
#[derive(Clone, Copy, Debug, PartialEq, Eq, Structural)]
pub enum StorePurpose {
    /// The server pushed it; acknowledge it afterwards when `ack` is set.
    Pushed { ack: bool },
    /// A send returned it; answer request `request_id` afterwards.
    Reply { request_id: u64 },
}

/// Where a store sequence stands.
#[derive(Clone, Copy, Debug, PartialEq, Eq, Structural)]
pub enum StoreStage {
    /// Waiting for `save_message`.
    SavingMessage,
    /// Waiting for `save_cursor`.
    SavingCursor,
    /// Waiting for the acknowledgement to be written.
    Acking,
    /// Done; nothing more happens.
    Finished,
}

/// What the caller reports back.
#[derive(Debug)]
pub enum StoreEvent {
    /// The store call succeeded.
    Saved,
    /// The store call failed with this message.
    SaveFailed(String),
    /// Writing the acknowledgement finished with this result.
    AckWritten(Result<(), Error>),
}

/// The kind of a store event.
#[derive(Clone, Copy, Debug, PartialEq, Eq, Structural)]
pub enum StoreEventKind {
    Saved,
    SaveFailed,
    AckWritten,
}

/// The kind of a store event.
pub open spec fn event_kind(e: StoreEvent) -> StoreEventKind {
    match e {
        StoreEvent::Saved => StoreEventKind::Saved,
        StoreEvent::SaveFailed(_) => StoreEventKind::SaveFailed,
        StoreEvent::AckWritten(_) => StoreEventKind::AckWritten,
    }
}

/// What the caller does next.
#[derive(Debug)]
pub enum StoreAction {
    /// Call `save_message` with this message.
    SaveMessage(Message),
    /// Call `save_cursor` with this cursor.
    SaveCursor(MessageCursor),
    /// Write this acknowledgement.
    SendAck(wire::ClientBody),
    /// Report these events, in order. The envelope is handled.
    Emit(Vec<ClientEvent>),
    /// Answer request `request_id`. The envelope is handled.
    Resolve { request_id: u64, result: Result<RpcValue, Error> },
    /// The envelope failed with this error.
    Fail(Error),
    /// The event does not belong to this stage; nothing to do.
    Ignore,
}

/// The kind of an action.
#[derive(Clone, Copy, Debug, PartialEq, Eq, Structural)]
pub enum StoreStep {
    SaveMessage,
    SaveCursor,
    SendAck,
    Emit,
    Resolve,
    Fail,
    Ignore,
}

/// The kind of a store action.
pub open spec fn action_kind(a: StoreAction) -> StoreStep {
    match a {
        StoreAction::SaveMessage(_) => StoreStep::SaveMessage,
        StoreAction::SaveCursor(_) => StoreStep::SaveCursor,
        StoreAction::SendAck(_) => StoreStep::SendAck,
        StoreAction::Emit(_) => StoreStep::Emit,
        StoreAction::Resolve { .. } => StoreStep::Resolve,
        StoreAction::Fail(_) => StoreStep::Fail,
        StoreAction::Ignore => StoreStep::Ignore,
    }
}

/// One transition: from `stage`, event kind `ev` leads to a new stage and an
/// action kind. `save_message` comes first, then `save_cursor`; only after
/// both succeed is a pushed message acknowledged (when configured) and
/// reported, or a reply answered. A failed save ends the sequence.
pub open spec fn store_next(stage: StoreStage, purpose: StorePurpose, ev: StoreEventKind) -> (
    StoreStage,
    StoreStep,
) {
    match stage {
        StoreStage::SavingMessage => match ev {
            StoreEventKind::Saved => (StoreStage::SavingCursor, StoreStep::SaveCursor),
            StoreEventKind::SaveFailed => (
                StoreStage::Finished,
                if purpose is Pushed {
                    StoreStep::Fail
                } else {
                    StoreStep::Resolve
                },
            ),
            StoreEventKind::AckWritten => (stage, StoreStep::Ignore),
        },
        StoreStage::SavingCursor => match ev {
            StoreEventKind::Saved => match purpose {
                StorePurpose::Pushed { ack } => if ack {
                    (StoreStage::Acking, StoreStep::SendAck)
                } else {
                    (StoreStage::Finished, StoreStep::Emit)
                },
                StorePurpose::Reply { .. } => (StoreStage::Finished, StoreStep::Resolve),
            },
            StoreEventKind::SaveFailed => (
                StoreStage::Finished,
                if purpose is Pushed {
                    StoreStep::Fail
                } else {
                    StoreStep::Resolve
                },
            ),
            StoreEventKind::AckWritten => (stage, StoreStep::Ignore),
        },
        StoreStage::Acking => match ev {
            StoreEventKind::AckWritten => (StoreStage::Finished, StoreStep::Emit),
            _ => (stage, StoreStep::Ignore),
        },
        StoreStage::Finished => (stage, StoreStep::Ignore),
    }
}

/// The actions a store sequence takes for a run of events, from its start.
pub open spec fn store_trace(stage: StoreStage, purpose: StorePurpose, events: Seq<StoreEventKind>) -> Seq<
    StoreStep,
>
    decreases events.len(),
{
    if events.len() == 0 {
        Seq::empty()
    } else {
        let (next, step) = store_next(stage, purpose, events[0]);
        seq![step] + store_trace(next, purpose, events.drop_first())
    }
}

/// Whether report `ev` answers the action that led to `stage`: a store result
/// after a save, a write result after an acknowledgement.
pub open spec fn answers(stage: StoreStage, ev: StoreEventKind) -> bool {
    match stage {
        StoreStage::SavingMessage | StoreStage::SavingCursor => ev != StoreEventKind::AckWritten,
        StoreStage::Acking => ev == StoreEventKind::AckWritten,
        StoreStage::Finished => false,
    }
}

/// A run in which every report answers the action before it.
pub open spec fn proper_run(stage: StoreStage, purpose: StorePurpose, events: Seq<StoreEventKind>) -> bool
    decreases events.len(),
{
    events.len() == 0 || (answers(stage, events[0]) && proper_run(
        store_next(stage, purpose, events[0]).0,
        purpose,
        events.drop_first(),
    ))
}

/// The event reports (a copy of) message `m`.
pub open spec fn reports_message(ev: ClientEvent, m: Message) -> bool {
    ev matches ClientEvent::Message(x) && crate::store::same_message(x, m)
}

/// The sequence that stores `message`, then acknowledges and reports it or
/// answers with it.
#[derive(Debug)]
pub struct StoreFlow {
    message: Message,
    purpose: StorePurpose,
    stage: StoreStage,
}

impl StoreFlow {
    /// The message being stored.
    pub closed spec fn spec_message(&self) -> Message {
        self.message
    }

    /// Why it is being stored.
    pub closed spec fn spec_purpose(&self) -> StorePurpose {
        self.purpose
    }

    /// How far the sequence has come.
    pub closed spec fn spec_stage(&self) -> StoreStage {
        self.stage
    }

    /// Starts storing `message`; the first action saves it.
    pub fn start(message: Message, purpose: StorePurpose) -> (r: (StoreFlow, StoreAction))
        ensures
            r.0.spec_message() == message,
            r.0.spec_purpose() == purpose,
            r.0.spec_stage() == StoreStage::SavingMessage,
            r.1 matches StoreAction::SaveMessage(m) && crate::store::same_message(m, message),
    {
        let copy = crate::store::copy_message(&message);
        (StoreFlow { message, purpose, stage: StoreStage::SavingMessage }, StoreAction::SaveMessage(copy))
    }

    /// Advances with the caller's report and returns the next action.
    pub fn step(&mut self, event: StoreEvent) -> (r: StoreAction)
        ensures
            final(self).spec_message() == old(self).spec_message(),
            final(self).spec_purpose() == old(self).spec_purpose(),
            (final(self).spec_stage(), action_kind(r)) == store_next(
                old(self).spec_stage(),
                old(self).spec_purpose(),
                event_kind(event),
            ),
            r matches StoreAction::SaveCursor(c) ==> c == crate::store::cursor_of(old(self).spec_message()),
            r matches StoreAction::SendAck(b) ==> b == (wire::ClientBody::AckMessage {
                cursor: Some(
                    wire::MessageCursor {
                        node_id: old(self).spec_message().node_id,
                        seq: old(self).spec_message().seq,
                    },
                ),
            }),
            r matches StoreAction::Fail(e) ==> match event {
                StoreEvent::SaveFailed(m) => if old(self).spec_stage() == StoreStage::SavingMessage {
                    is_store(e, "save_message"@, m@)
                } else {
                    is_store(e, "save_cursor"@, m@)
                },
                _ => false,
            },
            r matches StoreAction::Resolve { request_id, result } ==> {
                &&& old(self).spec_purpose() == (StorePurpose::Reply { request_id })
                &&& match event {
                    StoreEvent::Saved => result matches Ok(RpcValue::Message(m))
                        && crate::store::same_message(m, old(self).spec_message()),
                    StoreEvent::SaveFailed(msg) => result matches Err(e) && if old(self).spec_stage()
                        == StoreStage::SavingMessage {
                        is_store(e, "save_message"@, msg@)
                    } else {
                        is_store(e, "save_cursor"@, msg@)
                    },
                    _ => false,
                }
            },
            r matches StoreAction::Emit(events) ==> match event {
                StoreEvent::AckWritten(Err(e)) => if e is NotConnected || e is Closed {
                    events@.len() == 1 && reports_message(events@[0], old(self).spec_message())
                } else {
                    events@.len() == 2 && events@[0] == ClientEvent::Error(e) && reports_message(
                        events@[1],
                        old(self).spec_message(),
                    )
                },
                _ => events@.len() == 1 && reports_message(events@[0], old(self).spec_message()),
            },
    {
        match self.stage {
            StoreStage::SavingMessage => match event {
                StoreEvent::Saved => {
                    self.stage = StoreStage::SavingCursor;
                    StoreAction::SaveCursor(self.message.cursor())
                },
                StoreEvent::SaveFailed(m) => {
                    self.stage = StoreStage::Finished;
                    let e = Error::store("save_message", m.as_str());
                    self.finish_failed(e)
                },
                StoreEvent::AckWritten(_) => StoreAction::Ignore,
            },
            StoreStage::SavingCursor => match event {
                StoreEvent::Saved => match self.purpose {
                    StorePurpose::Pushed { ack } => {
                        if ack {
                            self.stage = StoreStage::Acking;
                            StoreAction::SendAck(
                                wire::ClientBody::AckMessage {
                                    cursor: Some(
                                        wire::MessageCursor {
                                            node_id: self.message.node_id,
                                            seq: self.message.seq,
                                        },
                                    ),
                                },
                            )
                        } else {
                            self.stage = StoreStage::Finished;
                            let mut events: Vec<ClientEvent> = Vec::new();
                            events.push(ClientEvent::Message(crate::store::copy_message(&self.message)));
                            StoreAction::Emit(events)
                        }
                    },
                    StorePurpose::Reply { request_id } => {
                        self.stage = StoreStage::Finished;
                        StoreAction::Resolve {
                            request_id,
                            result: Ok(RpcValue::Message(crate::store::copy_message(&self.message))),
                        }
                    },
                },
                StoreEvent::SaveFailed(m) => {
                    self.stage = StoreStage::Finished;
                    let e = Error::store("save_cursor", m.as_str());
                    self.finish_failed(e)
                },
                StoreEvent::AckWritten(_) => StoreAction::Ignore,
            },
            StoreStage::Acking => match event {
                StoreEvent::AckWritten(result) => {
                    self.stage = StoreStage::Finished;
                    let mut events: Vec<ClientEvent> = Vec::new();
                    match result {
                        Ok(()) => {},
                        Err(Error::NotConnected(_)) => {},
                        Err(Error::Closed(_)) => {},
                        Err(e) => {
                            events.push(ClientEvent::Error(e));
                        },
                    }
                    events.push(ClientEvent::Message(crate::store::copy_message(&self.message)));
                    StoreAction::Emit(events)
                },
                _ => StoreAction::Ignore,
            },
            StoreStage::Finished => StoreAction::Ignore,
        }
    }

    fn finish_failed(&self, e: Error) -> (r: StoreAction)
        ensures
            self.purpose is Pushed ==> r == StoreAction::Fail(e),
            self.purpose matches StorePurpose::Reply { request_id } ==> r == (StoreAction::Resolve {
                request_id,
                result: Err(e),
            }),
    {
        match self.purpose {
            StorePurpose::Pushed { .. } => StoreAction::Fail(e),
            StorePurpose::Reply { request_id } => StoreAction::Resolve { request_id, result: Err(e) },
        }
    }
}

/// An acknowledgement is written only after `save_message` and then
/// `save_cursor` both succeeded: in a run where each report answers the action
/// before it, an ACK can only be the second step, after two successful saves,
/// and only for a pushed message with acknowledgements on.
pub proof fn law_ack_only_after_both_saves(purpose: StorePurpose, events: Seq<StoreEventKind>, i: int)
    requires
        proper_run(StoreStage::SavingMessage, purpose, events),
        0 <= i < events.len(),
        store_trace(StoreStage::SavingMessage, purpose, events)[i] == StoreStep::SendAck,
    ensures
        i == 1,
        events[0] == StoreEventKind::Saved,
        events[1] == StoreEventKind::Saved,
        purpose == (StorePurpose::Pushed { ack: true }),
{
    lemma_ack_position(StoreStage::SavingMessage, purpose, events, i);
}

/// A report that does not answer the pending action changes nothing.
pub proof fn law_stray_report_is_ignored(stage: StoreStage, purpose: StorePurpose, ev: StoreEventKind)
    requires
        !answers(stage, ev),
    ensures
        store_next(stage, purpose, ev) == (stage, StoreStep::Ignore),
{
}

proof fn lemma_trace_len(stage: StoreStage, purpose: StorePurpose, events: Seq<StoreEventKind>)
    ensures
        store_trace(stage, purpose, events).len() == events.len(),
    decreases events.len(),
{
    if events.len() > 0 {
        let (next, _) = store_next(stage, purpose, events[0]);
        lemma_trace_len(next, purpose, events.drop_first());
    }
}

/// Where an ACK can occur in a trace, by starting stage.
proof fn lemma_ack_position(stage: StoreStage, purpose: StorePurpose, events: Seq<StoreEventKind>, i: int)
    requires
        proper_run(stage, purpose, events),
        stage == StoreStage::SavingMessage || stage == StoreStage::SavingCursor || stage
            == StoreStage::Acking || stage == StoreStage::Finished,
        0 <= i < events.len(),
        store_trace(stage, purpose, events)[i] == StoreStep::SendAck,
    ensures
        stage == StoreStage::SavingMessage ==> i == 1 && events[0] == StoreEventKind::Saved
            && events[1] == StoreEventKind::Saved && purpose == (StorePurpose::Pushed { ack: true }),
        stage == StoreStage::SavingCursor ==> i == 0 && events[0] == StoreEventKind::Saved
            && purpose == (StorePurpose::Pushed { ack: true }),
        stage != StoreStage::SavingMessage && stage != StoreStage::SavingCursor ==> false,
    decreases events.len(),
{
    lemma_trace_len(stage, purpose, events);
    let (next, step) = store_next(stage, purpose, events[0]);
    assert(store_trace(stage, purpose, events) == seq![step] + store_trace(next, purpose, events.drop_first()));
    if i == 0 {
        assert(step == StoreStep::SendAck);
    } else {
        assert(store_trace(next, purpose, events.drop_first())[i - 1] == StoreStep::SendAck);
        lemma_ack_position(next, purpose, events.drop_first(), i - 1);
        assert(events.drop_first()[0] == events[1]);
    }
}

/// A failed save ends the sequence: whatever is reported afterwards, nothing
/// more happens, so no acknowledgement is written and no message reported.
pub proof fn law_failed_save_ends_sequence(purpose: StorePurpose, events: Seq<StoreEventKind>, i: int, j: int)
    requires
        0 <= i < j < events.len(),
        events[i] == StoreEventKind::SaveFailed,
        forall|k: int| 0 <= k < i ==> events[k] == StoreEventKind::Saved,
        i <= 1,
    ensures
        store_trace(StoreStage::SavingMessage, purpose, events)[j] == StoreStep::Ignore,
{
    lemma_trace_len(StoreStage::SavingMessage, purpose, events);
    let t = store_trace(StoreStage::SavingMessage, purpose, events);
    let (s1, _) = store_next(StoreStage::SavingMessage, purpose, events[0]);
    let rest1 = events.drop_first();
    assert(t == seq![store_next(StoreStage::SavingMessage, purpose, events[0]).1] + store_trace(s1, purpose, rest1));
    if i == 0 {
        assert(s1 == StoreStage::Finished);
        lemma_finished_ignores(purpose, rest1, j - 1);
    } else {
        assert(s1 == StoreStage::SavingCursor);
        let (s2, _) = store_next(s1, purpose, rest1[0]);
        let rest2 = rest1.drop_first();
        assert(store_trace(s1, purpose, rest1) == seq![store_next(s1, purpose, rest1[0]).1] + store_trace(s2, purpose, rest2));
        assert(rest1[0] == events[1]);
        assert(s2 == StoreStage::Finished);
        lemma_finished_ignores(purpose, rest2, j - 2);
    }
}

proof fn lemma_finished_ignores(purpose: StorePurpose, events: Seq<StoreEventKind>, k: int)
    requires
        0 <= k < events.len(),
    ensures
        store_trace(StoreStage::Finished, purpose, events)[k] == StoreStep::Ignore,
    decreases events.len(),
{
    lemma_trace_len(StoreStage::Finished, purpose, events);
    let rest = events.drop_first();
    lemma_trace_len(StoreStage::Finished, purpose, rest);
    assert(store_trace(StoreStage::Finished, purpose, events) == seq![StoreStep::Ignore] + store_trace(StoreStage::Finished, purpose, rest));
    if k > 0 {
        lemma_finished_ignores(purpose, rest, k - 1);
    }
}

/// A pushed packet is reported as it is: it is never stored, so it is never
/// acknowledged either.
pub proof fn law_packets_are_not_stored(body: Option<wire::ServerBody>, r: Result<EnvelopePlan, Error>)
    requires
        body matches Some(wire::ServerBody::PacketPushed { .. }),
        plan_matches(body, r),
    ensures
        !(r matches Ok(EnvelopePlan::StorePushed(_))),
        !(r matches Ok(EnvelopePlan::StoreReply { .. })),
        r is Ok ==> (r matches Ok(EnvelopePlan::Emit(ClientEvent::Packet(_)))),
{
}

/// A pushed message is always stored before anything else happens to it.
pub proof fn law_pushed_messages_are_stored_first(body: Option<wire::ServerBody>, r: Result<EnvelopePlan, Error>)
    requires
        body matches Some(wire::ServerBody::MessagePushed { message: Some(_) }),
        plan_matches(body, r),
    ensures
        r matches Ok(EnvelopePlan::StorePushed(_)),
{
}

/// Every answer goes to the request whose ID it carries, with a value of the
/// answer's own kind: a user answer resolves with a user, a list of events with
/// events, and so on; a sent message is stored before it answers; a server
/// error with a request ID answers that request with the server's code and
/// message, one without is returned; a pushed message is stored and a pushed
/// packet reported.
pub proof fn law_answers_go_to_their_request(b: wire::ServerBody, r: Result<EnvelopePlan, Error>)
    requires
        plan_matches(Some(b), r),
    ensures
        b matches wire::ServerBody::Pong { request_id } ==> r is Ok ==> (r matches Ok(
            EnvelopePlan::Resolve { request_id: id, result: Ok(v) },
        ) && id == request_id && v is Unit),
        b matches wire::ServerBody::CreateUserResponse { request_id, .. } ==> r is Ok ==> (r matches Ok(
            EnvelopePlan::Resolve { request_id: id, result: Ok(v) },
        ) && id == request_id && v is User),
        b matches wire::ServerBody::GetUserResponse { request_id, .. } ==> r is Ok ==> (r matches Ok(
            EnvelopePlan::Resolve { request_id: id, result: Ok(v) },
        ) && id == request_id && v is User),
        b matches wire::ServerBody::UpdateUserResponse { request_id, .. } ==> r is Ok ==> (r matches Ok(
            EnvelopePlan::Resolve { request_id: id, result: Ok(v) },
        ) && id == request_id && v is User),
        b matches wire::ServerBody::DeleteUserResponse { request_id, .. } ==> r is Ok ==> (r matches Ok(
            EnvelopePlan::Resolve { request_id: id, result: Ok(v) },
        ) && id == request_id && v is DeleteUserResult),
        b matches wire::ServerBody::GetUserMetadataResponse { request_id, .. } ==> r is Ok ==> (r matches Ok(
            EnvelopePlan::Resolve { request_id: id, result: Ok(v) },
        ) && id == request_id && v is UserMetadata),
        b matches wire::ServerBody::UpsertUserMetadataResponse { request_id, .. } ==> r is Ok ==> (r matches Ok(
            EnvelopePlan::Resolve { request_id: id, result: Ok(v) },
        ) && id == request_id && v is UserMetadata),
        b matches wire::ServerBody::DeleteUserMetadataResponse { request_id, .. } ==> r is Ok ==> (r matches Ok(
            EnvelopePlan::Resolve { request_id: id, result: Ok(v) },
        ) && id == request_id && v is UserMetadata),
        b matches wire::ServerBody::ListMessagesResponse { request_id, .. } ==> r is Ok ==> (r matches Ok(
            EnvelopePlan::Resolve { request_id: id, result: Ok(v) },
        ) && id == request_id && v is Messages),
        b matches wire::ServerBody::UpsertUserAttachmentResponse { request_id, .. } ==> r is Ok ==> (r matches Ok(
            EnvelopePlan::Resolve { request_id: id, result: Ok(v) },
        ) && id == request_id && v is Attachment),
        b matches wire::ServerBody::DeleteUserAttachmentResponse { request_id, .. } ==> r is Ok ==> (r matches Ok(
            EnvelopePlan::Resolve { request_id: id, result: Ok(v) },
        ) && id == request_id && v is Attachment),
        b matches wire::ServerBody::ListUserAttachmentsResponse { request_id, items } ==> (forall|j: int|
            0 <= j < items@.len() ==> (#[trigger] attachment_type_of_code(items@[j].attachment_type)) is Some)
            ==> (r matches Ok(EnvelopePlan::Resolve { request_id: id, result: Ok(v) }) && id == request_id
            && v is Attachments),
        b matches wire::ServerBody::ListEventsResponse { request_id, .. } ==> r is Ok ==> (r matches Ok(
            EnvelopePlan::Resolve { request_id: id, result: Ok(v) },
        ) && id == request_id && v is Events),
        b matches wire::ServerBody::ListClusterNodesResponse { request_id, .. } ==> r is Ok ==> (r matches Ok(
            EnvelopePlan::Resolve { request_id: id, result: Ok(v) },
        ) && id == request_id && v is ClusterNodes),
        b matches wire::ServerBody::ListNodeLoggedInUsersResponse { request_id, .. } ==> r is Ok ==> (r matches Ok(
            EnvelopePlan::Resolve { request_id: id, result: Ok(v) },
        ) && id == request_id && v is LoggedInUsers),
        b matches wire::ServerBody::OperationsStatusResponse { request_id, .. } ==> r is Ok ==> (r matches Ok(
            EnvelopePlan::Resolve { request_id: id, result: Ok(v) },
        ) && id == request_id && v is OperationsStatus),
        b matches wire::ServerBody::MetricsResponse { request_id, .. } ==> r is Ok ==> (r matches Ok(
            EnvelopePlan::Resolve { request_id: id, result: Ok(v) },
        ) && id == request_id && v is Metrics),
        b matches wire::ServerBody::ScanUserMetadataResponse(resp) ==> r is Ok ==> (r matches Ok(
            EnvelopePlan::Resolve { request_id: id, result: Ok(v) },
        ) && id == resp.request_id && v is UserMetadataScanResult),
        b matches wire::ServerBody::ResolveUserSessionsResponse(resp) ==> (forall|j: int|
            0 <= j < resp.items@.len() ==> (#[trigger] session_ref_problem(resp.items@[j].session)) is None)
            ==> (r matches Ok(EnvelopePlan::Resolve { request_id: id, result: Ok(v) }) && id == resp.request_id
            && v is ResolvedUserSessions),
        b matches wire::ServerBody::SendMessageResponse {
            request_id,
            body: Some(wire::SendMessageResult::Message(_)),
        } ==> (r matches Ok(EnvelopePlan::StoreReply { request_id: id, .. }) && id == request_id),
        b matches wire::ServerBody::SendMessageResponse {
            request_id,
            body: Some(wire::SendMessageResult::TransientAccepted(_)),
        } ==> r is Ok ==> (r matches Ok(EnvelopePlan::Resolve { request_id: id, result: Ok(v) }) && id
            == request_id && v is RelayAccepted),
        b matches wire::ServerBody::Error { code, message, request_id } ==> request_id != 0 ==> (r matches Ok(
            EnvelopePlan::Resolve { request_id: id, result: Err(Error::Server(s)) },
        ) && id == request_id && s.code == code && s.server_message == message && s.request_id == request_id),
        b matches wire::ServerBody::Error { request_id, .. } ==> request_id == 0 ==> (r matches Err(
            Error::Server(s),
        ) && s.request_id == 0),
        b matches wire::ServerBody::MessagePushed { message: Some(_) } ==> (r matches Ok(
            EnvelopePlan::StorePushed(_),
        )),
        b matches wire::ServerBody::PacketPushed { .. } ==> r is Ok ==> (r matches Ok(
            EnvelopePlan::Emit(ClientEvent::Packet(_)),
        )),
{
}

} // verus!
