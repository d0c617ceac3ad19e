//! The client's requests: each operation's parameter checks and the request
//! body it sends, and how its answer is read. A body is built with request ID
//! 0; the connection stamps the ID it allocates with `with_request_id`.

use vstd::prelude::*;

use crate::dispatch::RpcValue;
use crate::errors::{is_protocol, is_validation, Error};
use crate::mapping::{
    attachment_type_code, blacklist_entry_from_attachment, blacklist_entry_of,
    delivery_mode_code, delivery_mode_to_proto, attachment_type_to_proto, subscription_from_attachment,
    subscription_of, user_ref_to_proto, user_ref_wire,
};
use crate::password::PasswordInput;
use crate::text::{is_blank, trim_spec, text_eq, trim_text};
use crate::types::{
    Attachment, AttachmentType, BlacklistEntry, ClusterNode, CreateUserRequest, DeleteUserResult,
    DeliveryMode, Event, LoggedInUser, Message, OperationsStatus, RelayAccepted,
    ResolvedUserSessions, ScanUserMetadataRequest, SessionRef, Subscription, UpdateUserRequest,
    UpsertUserMetadataRequest, User, UserMetadata, UserMetadataScanResult, UserRef,
};
use crate::validation::{
    key_fragment_error, normalize_login_name, user_ref_check, validate_delivery_mode,
    validate_optional_user_metadata_key_fragment, validate_positive_i64, validate_session_ref,
    validate_user_metadata_key, validate_user_metadata_scan_limit, validate_user_ref,
};
use crate::wire;

verus! {

/// `ClientDeliveryKind::Transient`.
pub const DELIVERY_KIND_TRANSIENT: i32 = 2;

/// The request body with its request ID set to `id` (the acknowledgement
/// and the login frame carry none and stay as they are).
pub open spec fn body_with_id(b: wire::ClientBody, id: u64) -> wire::ClientBody {
    match b {
        wire::ClientBody::Login(l) => wire::ClientBody::Login(l),
        wire::ClientBody::AckMessage { cursor } => wire::ClientBody::AckMessage { cursor },
        wire::ClientBody::SendMessage(r) => wire::ClientBody::SendMessage(
            wire::SendMessageRequest { request_id: id, ..r },
        ),
        wire::ClientBody::Ping { .. } => wire::ClientBody::Ping { request_id: id },
        wire::ClientBody::CreateUser(r) => wire::ClientBody::CreateUser(
            wire::CreateUserRequest { request_id: id, ..r },
        ),
        wire::ClientBody::GetUser { user, .. } => wire::ClientBody::GetUser { request_id: id, user },
        wire::ClientBody::UpdateUser(r) => wire::ClientBody::UpdateUser(
            wire::UpdateUserRequest { request_id: id, ..r },
        ),
        wire::ClientBody::DeleteUser { user, .. } => wire::ClientBody::DeleteUser { request_id: id, user },
        wire::ClientBody::ListMessages { user, limit, .. } => wire::ClientBody::ListMessages {
            request_id: id,
            user,
            limit,
        },
        wire::ClientBody::UpsertUserAttachment(r) => wire::ClientBody::UpsertUserAttachment(
            wire::UpsertUserAttachmentRequest { request_id: id, ..r },
        ),
        wire::ClientBody::DeleteUserAttachment(r) => wire::ClientBody::DeleteUserAttachment(
            wire::DeleteUserAttachmentRequest { request_id: id, ..r },
        ),
        wire::ClientBody::ListUserAttachments { owner, attachment_type, .. } => wire::ClientBody::ListUserAttachments {
            request_id: id,
            owner,
            attachment_type,
        },
        wire::ClientBody::ListEvents { after, limit, .. } => wire::ClientBody::ListEvents {
            request_id: id,
            after,
            limit,
        },
        wire::ClientBody::OperationsStatus { .. } => wire::ClientBody::OperationsStatus { request_id: id },
        wire::ClientBody::Metrics { .. } => wire::ClientBody::Metrics { request_id: id },
        wire::ClientBody::ListClusterNodes { .. } => wire::ClientBody::ListClusterNodes { request_id: id },
        wire::ClientBody::ListNodeLoggedInUsers { node_id, .. } => wire::ClientBody::ListNodeLoggedInUsers {
            request_id: id,
            node_id,
        },
        wire::ClientBody::ResolveUserSessions { user, .. } => wire::ClientBody::ResolveUserSessions {
            request_id: id,
            user,
        },
        wire::ClientBody::GetUserMetadata { owner, key, .. } => wire::ClientBody::GetUserMetadata {
            request_id: id,
            owner,
            key,
        },
        wire::ClientBody::UpsertUserMetadata(r) => wire::ClientBody::UpsertUserMetadata(
            wire::UpsertUserMetadataRequest { request_id: id, ..r },
        ),
        wire::ClientBody::DeleteUserMetadata { owner, key, .. } => wire::ClientBody::DeleteUserMetadata {
            request_id: id,
            owner,
            key,
        },
        wire::ClientBody::ScanUserMetadata(r) => wire::ClientBody::ScanUserMetadata(
            wire::ScanUserMetadataRequest { request_id: id, ..r },
        ),
    }
}

/// The request ID a body carries; the login frame and the acknowledgement
/// carry none (0).
pub open spec fn request_id_of(b: wire::ClientBody) -> u64 {
    match b {
        wire::ClientBody::Login(_) => 0,
        wire::ClientBody::AckMessage { .. } => 0,
        wire::ClientBody::SendMessage(r) => r.request_id,
        wire::ClientBody::Ping { request_id } => request_id,
        wire::ClientBody::CreateUser(r) => r.request_id,
        wire::ClientBody::GetUser { request_id, .. } => request_id,
        wire::ClientBody::UpdateUser(r) => r.request_id,
        wire::ClientBody::DeleteUser { request_id, .. } => request_id,
        wire::ClientBody::ListMessages { request_id, .. } => request_id,
        wire::ClientBody::UpsertUserAttachment(r) => r.request_id,
        wire::ClientBody::DeleteUserAttachment(r) => r.request_id,
        wire::ClientBody::ListUserAttachments { request_id, .. } => request_id,
        wire::ClientBody::ListEvents { request_id, .. } => request_id,
        wire::ClientBody::OperationsStatus { request_id } => request_id,
        wire::ClientBody::Metrics { request_id } => request_id,
        wire::ClientBody::ListClusterNodes { request_id } => request_id,
        wire::ClientBody::ListNodeLoggedInUsers { request_id, .. } => request_id,
        wire::ClientBody::ResolveUserSessions { request_id, .. } => request_id,
        wire::ClientBody::GetUserMetadata { request_id, .. } => request_id,
        wire::ClientBody::UpsertUserMetadata(r) => r.request_id,
        wire::ClientBody::DeleteUserMetadata { request_id, .. } => request_id,
        wire::ClientBody::ScanUserMetadata(r) => r.request_id,
    }
}

/// Stamping a request ID changes the request ID and nothing else: the stamped
/// body carries `id` (or stays as it is when it carries no ID), and stamping
/// the old ID back gives the original body, every other field unchanged.
pub proof fn law_stamping_changes_only_the_id(b: wire::ClientBody, id: u64)
    ensures
        body_with_id(body_with_id(b, id), request_id_of(b)) == b,
        (b is Login || b is AckMessage) ==> body_with_id(b, id) == b,
        !(b is Login || b is AckMessage) ==> request_id_of(body_with_id(b, id)) == id,
        b matches wire::ClientBody::ListEvents { after, limit, .. } ==> body_with_id(b, id)
            == (wire::ClientBody::ListEvents { request_id: id, after, limit }),
{
}

/// Stamps request ID `id` on a request body.
pub fn with_request_id(body: wire::ClientBody, id: u64) -> (r: wire::ClientBody)
    ensures
        r == body_with_id(body, id),
{
    match body {
        wire::ClientBody::Login(l) => wire::ClientBody::Login(l),
        wire::ClientBody::AckMessage { cursor } => wire::ClientBody::AckMessage { cursor },
        wire::ClientBody::SendMessage(r) => wire::ClientBody::SendMessage(
            wire::SendMessageRequest { request_id: id, ..r },
        ),
        wire::ClientBody::Ping { .. } => wire::ClientBody::Ping { request_id: id },
        wire::ClientBody::CreateUser(r) => wire::ClientBody::CreateUser(
            wire::CreateUserRequest { request_id: id, ..r },
        ),
        wire::ClientBody::GetUser { user, .. } => wire::ClientBody::GetUser { request_id: id, user },
        wire::ClientBody::UpdateUser(r) => wire::ClientBody::UpdateUser(
            wire::UpdateUserRequest { request_id: id, ..r },
        ),
        wire::ClientBody::DeleteUser { user, .. } => wire::ClientBody::DeleteUser { request_id: id, user },
        wire::ClientBody::ListMessages { user, limit, .. } => wire::ClientBody::ListMessages {
            request_id: id,
            user,
            limit,
        },
        wire::ClientBody::UpsertUserAttachment(r) => wire::ClientBody::UpsertUserAttachment(
            wire::UpsertUserAttachmentRequest { request_id: id, ..r },
        ),
        wire::ClientBody::DeleteUserAttachment(r) => wire::ClientBody::DeleteUserAttachment(
            wire::DeleteUserAttachmentRequest { request_id: id, ..r },
        ),
        wire::ClientBody::ListUserAttachments { owner, attachment_type, .. } => wire::ClientBody::ListUserAttachments {
            request_id: id,
            owner,
            attachment_type,
        },
        wire::ClientBody::ListEvents { after, limit, .. } => wire::ClientBody::ListEvents {
            request_id: id,
            after,
            limit,
        },
        wire::ClientBody::OperationsStatus { .. } => wire::ClientBody::OperationsStatus { request_id: id },
        wire::ClientBody::Metrics { .. } => wire::ClientBody::Metrics { request_id: id },
        wire::ClientBody::ListClusterNodes { .. } => wire::ClientBody::ListClusterNodes { request_id: id },
        wire::ClientBody::ListNodeLoggedInUsers { node_id, .. } => wire::ClientBody::ListNodeLoggedInUsers {
            request_id: id,
            node_id,
        },
        wire::ClientBody::ResolveUserSessions { user, .. } => wire::ClientBody::ResolveUserSessions {
            request_id: id,
            user,
        },
        wire::ClientBody::GetUserMetadata { owner, key, .. } => wire::ClientBody::GetUserMetadata {
            request_id: id,
            owner,
            key,
        },
        wire::ClientBody::UpsertUserMetadata(r) => wire::ClientBody::UpsertUserMetadata(
            wire::UpsertUserMetadataRequest { request_id: id, ..r },
        ),
        wire::ClientBody::DeleteUserMetadata { owner, key, .. } => wire::ClientBody::DeleteUserMetadata {
            request_id: id,
            owner,
            key,
        },
        wire::ClientBody::ScanUserMetadata(r) => wire::ClientBody::ScanUserMetadata(
            wire::ScanUserMetadataRequest { request_id: id, ..r },
        ),
    }
}

// ----- requests without parameters to check -----

/// A ping.
pub fn ping_request() -> (r: wire::ClientBody)
    ensures
        r == (wire::ClientBody::Ping { request_id: 0 }),
{
    wire::ClientBody::Ping { request_id: 0 }
}

/// Lists events after `after`, at most `limit`.
pub fn list_events_request(after: i64, limit: i32) -> (r: wire::ClientBody)
    ensures
        r == (wire::ClientBody::ListEvents { request_id: 0, after, limit }),
{
    wire::ClientBody::ListEvents { request_id: 0, after, limit }
}

/// Lists the cluster's nodes.
pub fn list_cluster_nodes_request() -> (r: wire::ClientBody)
    ensures
        r == (wire::ClientBody::ListClusterNodes { request_id: 0 }),
{
    wire::ClientBody::ListClusterNodes { request_id: 0 }
}

/// Reads the operations status.
pub fn operations_status_request() -> (r: wire::ClientBody)
    ensures
        r == (wire::ClientBody::OperationsStatus { request_id: 0 }),
{
    wire::ClientBody::OperationsStatus { request_id: 0 }
}

/// Reads the metrics text.
pub fn metrics_request() -> (r: wire::ClientBody)
    ensures
        r == (wire::ClientBody::Metrics { request_id: 0 }),
{
    wire::ClientBody::Metrics { request_id: 0 }
}

// ----- messages and packets -----

/// A persisted message to `target`; the target must be valid and the body non-empty.
pub fn send_message_request(target: &UserRef, body: Vec<u8>) -> (r: Result<wire::ClientBody, Error>)
    ensures
        match user_ref_check(*target, "target"@) {
            Some(m) => r matches Err(e) && is_validation(e, m),
            None => if body@.len() == 0 {
                r matches Err(e) && is_validation(e, "body is required"@)
            } else {
                r == Ok::<wire::ClientBody, Error>(
                    wire::ClientBody::SendMessage(
                        wire::SendMessageRequest {
                            request_id: 0,
                            target: Some(user_ref_wire(*target)),
                            body,
                            delivery_kind: 0,
                            delivery_mode: 0,
                            sync_mode: 0,
                            target_session: None,
                        },
                    ),
                )
            },
        },
{
    validate_user_ref(target, "target")?;
    if body.len() == 0 {
        return Err(Error::validation("body is required"));
    }
    Ok(
        wire::ClientBody::SendMessage(
            wire::SendMessageRequest {
                request_id: 0,
                target: Some(user_ref_to_proto(target)),
                body,
                delivery_kind: 0,
                delivery_mode: 0,
                sync_mode: 0,
                target_session: None,
            },
        ),
    )
}

/// What is wrong with a packet's parameters, in the order they are checked.
pub open spec fn packet_problem(
    target: UserRef,
    body: Seq<u8>,
    mode: DeliveryMode,
    session: Option<SessionRef>,
) -> Option<Seq<char>> {
    if user_ref_check(target, "target"@) is Some {
        user_ref_check(target, "target"@)
    } else if mode == DeliveryMode::Unspecified {
        Some("invalid delivery_mode \"\""@)
    } else if session is Some && session->0.serving_node_id <= 0 {
        Some("target_session.serving_node_id is required"@)
    } else if session is Some && is_blank(session->0.session_id@) {
        Some("target_session.session_id is required"@)
    } else if body.len() == 0 {
        Some("body is required"@)
    } else {
        None
    }
}

/// A transient packet to `target`, optionally to one of its sessions.
pub fn send_packet_request(
    target: &UserRef,
    body: Vec<u8>,
    delivery_mode: DeliveryMode,
    target_session: Option<SessionRef>,
) -> (r: Result<wire::ClientBody, Error>)
    ensures
        match packet_problem(*target, body@, delivery_mode, target_session) {
            Some(m) => r matches Err(e) && is_validation(e, m),
            None => r matches Ok(wire::ClientBody::SendMessage(s)) && {
                &&& s.request_id == 0
                &&& s.target == Some(user_ref_wire(*target))
                &&& s.body == body
                &&& s.delivery_kind == DELIVERY_KIND_TRANSIENT
                &&& s.delivery_mode == delivery_mode_code(delivery_mode)
                &&& s.sync_mode == 0
                &&& match target_session {
                    Some(t) => s.target_session == Some(
                        wire::SessionRef { serving_node_id: t.serving_node_id, session_id: t.session_id },
                    ),
                    None => s.target_session is None,
                }
            },
        },
{
    proof {
        reveal_strlit("target_session");
        reveal_strlit(".serving_node_id");
        reveal_strlit(" is required");
        reveal_strlit("target_session.serving_node_id is required");
        reveal_strlit(".session_id is required");
        reveal_strlit("target_session.session_id is required");
        assert("target_session"@ + ".serving_node_id"@ + " is required"@
            =~= "target_session.serving_node_id is required"@);
        assert("target_session"@ + ".session_id is required"@
            =~= "target_session.session_id is required"@);
    }
    validate_user_ref(target, "target")?;
    validate_delivery_mode(delivery_mode)?;
    match &target_session {
        Some(s) => {
            validate_session_ref(s, "target_session")?;
        },
        None => {},
    }
    if body.len() == 0 {
        return Err(Error::validation("body is required"));
    }
    let session = match target_session {
        Some(t) => Some(wire::SessionRef { serving_node_id: t.serving_node_id, session_id: t.session_id }),
        None => None,
    };
    Ok(
        wire::ClientBody::SendMessage(
            wire::SendMessageRequest {
                request_id: 0,
                target: Some(user_ref_to_proto(target)),
                body,
                delivery_kind: DELIVERY_KIND_TRANSIENT,
                delivery_mode: delivery_mode_to_proto(delivery_mode),
                sync_mode: 0,
                target_session: session,
            },
        ),
    )
}

/// Lists the messages of `target`; the target must be a valid user reference.
pub fn list_messages_request(target: &UserRef, limit: i32) -> (r: Result<wire::ClientBody, Error>)
    ensures
        match user_ref_check(*target, "target"@) {
            Some(m) => r matches Err(e) && is_validation(e, m),
            None => r == Ok::<wire::ClientBody, Error>(
                wire::ClientBody::ListMessages {
                    request_id: 0,
                    user: Some(user_ref_wire(*target)),
                    limit,
                },
            ),
        },
{
    validate_user_ref(target, "target")?;
    Ok(wire::ClientBody::ListMessages { request_id: 0, user: Some(user_ref_to_proto(target)), limit })
}

// ----- users -----

/// Whether a role names a channel (`channel`, surrounding white space ignored).
pub open spec fn is_channel_role(role: Seq<char>) -> bool {
    trim_spec(role) == "channel"@
}

/// Whether a role names a channel.
pub fn is_channel(role: &str) -> (r: bool)
    ensures
        r == is_channel_role(role@),
{
    let t = trim_text(role);
    text_eq(t.as_str(), "channel")
}

/// The login name sent when creating a user: trimmed, and left out when empty.
pub open spec fn create_login_name(n: Option<String>) -> Option<Seq<char>> {
    match n {
        Some(s) => if trim_spec(s@).len() > 0 {
            Some(trim_spec(s@))
        } else {
            None
        },
        None => None,
    }
}

/// What is wrong with a user to create, in the order it is checked.
pub open spec fn create_user_problem(req: CreateUserRequest) -> Option<Seq<char>> {
    if req.username@.len() == 0 {
        Some("username is required"@)
    } else if req.role@.len() == 0 {
        Some("role is required"@)
    } else if is_channel_role(req.role@) && create_login_name(req.login_name) is Some {
        Some("login_name requires a login-enabled user"@)
    } else if req.password is Some && req.password->0.spec_encoded().len() == 0 {
        Some("password is required"@)
    } else {
        None
    }
}

/// Creates a user: the username and role must be given; a channel cannot have
/// a login name; the password, when given, must not be empty.
pub fn create_user_request(request: CreateUserRequest) -> (r: Result<wire::ClientBody, Error>)
    ensures
        match create_user_problem(request) {
            Some(m) => r matches Err(e) && is_validation(e, m),
            None => r matches Ok(wire::ClientBody::CreateUser(c)) && {
                &&& c.request_id == 0
                &&& c.username == request.username
                &&& c.role == request.role
                &&& c.profile_json == request.profile_json
                &&& c.password@ == match request.password {
                    Some(p) => p.spec_encoded(),
                    None => Seq::empty(),
                }
                &&& c.login_name@ == match create_login_name(request.login_name) {
                    Some(n) => n,
                    None => Seq::empty(),
                }
            },
        },
{
    let CreateUserRequest { username, login_name, password, profile_json, role } = request;
    if username.unicode_len() == 0 {
        return Err(Error::validation("username is required"));
    }
    if role.unicode_len() == 0 {
        return Err(Error::validation("role is required"));
    }
    let login_name = match login_name {
        Some(n) => {
            let t = normalize_login_name(n.as_str());
            if t.unicode_len() == 0 {
                None
            } else {
                Some(t)
            }
        },
        None => None,
    };
    if is_channel(role.as_str()) && login_name.is_some() {
        return Err(Error::validation("login_name requires a login-enabled user"));
    }
    let password = match &password {
        Some(p) => String::from_str(p.wire_value()?),
        None => String::new(),
    };
    let login_name = match login_name {
        Some(n) => n,
        None => String::new(),
    };
    Ok(
        wire::ClientBody::CreateUser(
            wire::CreateUserRequest { request_id: 0, username, password, profile_json, role, login_name },
        ),
    )
}

/// A channel is a user whose role defaults to `channel`.
pub fn channel_request(request: CreateUserRequest) -> (r: CreateUserRequest)
    ensures
        r.username == request.username,
        r.login_name == request.login_name,
        r.password == request.password,
        r.profile_json == request.profile_json,
        request.role@.len() == 0 ==> r.role@ == "channel"@,
        request.role@.len() > 0 ==> r.role == request.role,
{
    let CreateUserRequest { username, login_name, password, profile_json, role } = request;
    let role = if role.unicode_len() == 0 {
        String::from_str("channel")
    } else {
        role
    };
    CreateUserRequest { username, login_name, password, profile_json, role }
}

/// Reads `target`; it must be a valid user reference.
pub fn get_user_request(target: &UserRef) -> (r: Result<wire::ClientBody, Error>)
    ensures
        match user_ref_check(*target, "target"@) {
            Some(m) => r matches Err(e) && is_validation(e, m),
            None => r == Ok::<wire::ClientBody, Error>(
                wire::ClientBody::GetUser { request_id: 0, user: Some(user_ref_wire(*target)) },
            ),
        },
{
    validate_user_ref(target, "target")?;
    Ok(wire::ClientBody::GetUser { request_id: 0, user: Some(user_ref_to_proto(target)) })
}

/// Deletes `target`; it must be a valid user reference.
pub fn delete_user_request(target: &UserRef) -> (r: Result<wire::ClientBody, Error>)
    ensures
        match user_ref_check(*target, "target"@) {
            Some(m) => r matches Err(e) && is_validation(e, m),
            None => r == Ok::<wire::ClientBody, Error>(
                wire::ClientBody::DeleteUser { request_id: 0, user: Some(user_ref_wire(*target)) },
            ),
        },
{
    validate_user_ref(target, "target")?;
    Ok(wire::ClientBody::DeleteUser { request_id: 0, user: Some(user_ref_to_proto(target)) })
}

/// What is wrong with an update, in the order it is checked.
pub open spec fn update_user_problem(target: UserRef, req: UpdateUserRequest) -> Option<Seq<char>> {
    if user_ref_check(target, "target"@) is Some {
        user_ref_check(target, "target"@)
    } else if req.role is Some && is_channel_role(req.role->0@) && req.login_name is Some
        && trim_spec(req.login_name->0@).len() > 0 {
        Some("login_name requires a login-enabled user"@)
    } else if req.password is Some && req.password->0.spec_encoded().len() == 0 {
        Some("password is required"@)
    } else {
        None
    }
}

/// An optional text as a wrapped wire field.
pub open spec fn string_field(o: Option<String>) -> Option<wire::StringField> {
    match o {
        Some(s) => Some(wire::StringField { value: s }),
        None => None,
    }
}

/// Updates the given fields of a user; the login name is sent trimmed. A
/// channel cannot get a non-empty login name; a password, when given, must
/// not be empty.
pub fn update_user_request(target: &UserRef, request: UpdateUserRequest) -> (r: Result<
    wire::ClientBody,
    Error,
>)
    ensures
        match update_user_problem(*target, request) {
            Some(m) => r matches Err(e) && is_validation(e, m),
            None => r matches Ok(wire::ClientBody::UpdateUser(u)) && {
                &&& u.request_id == 0
                &&& u.user == Some(user_ref_wire(*target))
                &&& u.username == string_field(request.username)
                &&& match request.login_name {
                    Some(n) => u.login_name matches Some(f) && f.value@ == trim_spec(n@),
                    None => u.login_name is None,
                }
                &&& match request.password {
                    Some(p) => u.password matches Some(f) && f.value@ == p.spec_encoded(),
                    None => u.password is None,
                }
                &&& match request.profile_json {
                    Some(b) => u.profile_json == Some(wire::BytesField { value: b }),
                    None => u.profile_json is None,
                }
                &&& u.role == string_field(request.role)
            },
        },
{
    validate_user_ref(target, "target")?;
    let UpdateUserRequest { username, login_name, password, profile_json, role } = request;
    let login_name = match login_name {
        Some(n) => Some(normalize_login_name(n.as_str())),
        None => None,
    };
    let channel = match &role {
        Some(r) => is_channel(r.as_str()),
        None => false,
    };
    let named = match &login_name {
        Some(n) => n.unicode_len() > 0,
        None => false,
    };
    if channel && named {
        return Err(Error::validation("login_name requires a login-enabled user"));
    }
    let password = match &password {
        Some(p) => Some(wire::StringField { value: String::from_str(p.wire_value()?) }),
        None => None,
    };
    Ok(
        wire::ClientBody::UpdateUser(
            wire::UpdateUserRequest {
                request_id: 0,
                user: Some(user_ref_to_proto(target)),
                username: match username {
                    Some(v) => Some(wire::StringField { value: v }),
                    None => None,
                },
                login_name: match login_name {
                    Some(v) => Some(wire::StringField { value: v }),
                    None => None,
                },
                password,
                profile_json: match profile_json {
                    Some(v) => Some(wire::BytesField { value: v }),
                    None => None,
                },
                role: match role {
                    Some(v) => Some(wire::StringField { value: v }),
                    None => None,
                },
            },
        ),
    )
}

// ----- metadata -----

/// What is wrong with an owner and key, in the order they are checked.
pub open spec fn owner_key_problem(owner: UserRef, key: Seq<char>) -> Option<Seq<char>> {
    if user_ref_check(owner, "owner"@) is Some {
        user_ref_check(owner, "owner"@)
    } else {
        key_fragment_error(key, "key"@, false)
    }
}

fn check_owner_key(owner: &UserRef, key: &String) -> (r: Result<(), Error>)
    ensures
        match owner_key_problem(*owner, key@) {
            Some(m) => r matches Err(e) && is_validation(e, m),
            None => r is Ok,
        },
{
    validate_user_ref(owner, "owner")?;
    validate_user_metadata_key(key.as_str(), "key")?;
    Ok(())
}

/// Reads one metadata entry; owner and key are checked first.
pub fn get_user_metadata_request(owner: &UserRef, key: String) -> (r: Result<wire::ClientBody, Error>)
    ensures
        match owner_key_problem(*owner, key@) {
            Some(m) => r matches Err(e) && is_validation(e, m),
            None => r == Ok::<wire::ClientBody, Error>(
                wire::ClientBody::GetUserMetadata {
                    request_id: 0,
                    owner: Some(user_ref_wire(*owner)),
                    key,
                },
            ),
        },
{
    check_owner_key(owner, &key)?;
    Ok(wire::ClientBody::GetUserMetadata { request_id: 0, owner: Some(user_ref_to_proto(owner)), key })
}

/// Creates or replaces one metadata entry; owner and key are checked first.
pub fn upsert_user_metadata_request(
    owner: &UserRef,
    key: String,
    request: UpsertUserMetadataRequest,
) -> (r: Result<wire::ClientBody, Error>)
    ensures
        match owner_key_problem(*owner, key@) {
            Some(m) => r matches Err(e) && is_validation(e, m),
            None => r == Ok::<wire::ClientBody, Error>(
                wire::ClientBody::UpsertUserMetadata(
                    wire::UpsertUserMetadataRequest {
                        request_id: 0,
                        owner: Some(user_ref_wire(*owner)),
                        key,
                        value: request.value,
                        expires_at: string_field(request.expires_at),
                    },
                ),
            ),
        },
{
    check_owner_key(owner, &key)?;
    let expires_at = match request.expires_at {
        Some(v) => Some(wire::StringField { value: v }),
        None => None,
    };
    Ok(
        wire::ClientBody::UpsertUserMetadata(
            wire::UpsertUserMetadataRequest {
                request_id: 0,
                owner: Some(user_ref_to_proto(owner)),
                key,
                value: request.value,
                expires_at,
            },
        ),
    )
}

/// Deletes one metadata entry; owner and key are checked first.
pub fn delete_user_metadata_request(owner: &UserRef, key: String) -> (r: Result<
    wire::ClientBody,
    Error,
>)
    ensures
        match owner_key_problem(*owner, key@) {
            Some(m) => r matches Err(e) && is_validation(e, m),
            None => r == Ok::<wire::ClientBody, Error>(
                wire::ClientBody::DeleteUserMetadata {
                    request_id: 0,
                    owner: Some(user_ref_wire(*owner)),
                    key,
                },
            ),
        },
{
    check_owner_key(owner, &key)?;
    Ok(wire::ClientBody::DeleteUserMetadata { request_id: 0, owner: Some(user_ref_to_proto(owner)), key })
}

/// What is wrong with a scan, in the order it is checked.
pub open spec fn scan_problem(owner: UserRef, req: ScanUserMetadataRequest) -> Option<Seq<char>> {
    if user_ref_check(owner, "owner"@) is Some {
        user_ref_check(owner, "owner"@)
    } else if key_fragment_error(req.prefix@, "prefix"@, true) is Some {
        key_fragment_error(req.prefix@, "prefix"@, true)
    } else if key_fragment_error(req.after@, "after"@, true) is Some {
        key_fragment_error(req.after@, "after"@, true)
    } else if req.limit < 0 {
        Some("limit must be positive"@)
    } else if req.limit > 1000 {
        Some("limit cannot exceed 1000"@)
    } else {
        None
    }
}

/// Lists metadata entries; owner, prefix, cursor and limit are checked first.
pub fn scan_user_metadata_request(owner: &UserRef, request: ScanUserMetadataRequest) -> (r: Result<
    wire::ClientBody,
    Error,
>)
    ensures
        match scan_problem(*owner, request) {
            Some(m) => r matches Err(e) && is_validation(e, m),
            None => r == Ok::<wire::ClientBody, Error>(
                wire::ClientBody::ScanUserMetadata(
                    wire::ScanUserMetadataRequest {
                        request_id: 0,
                        owner: Some(user_ref_wire(*owner)),
                        prefix: request.prefix,
                        after: request.after,
                        limit: request.limit,
                    },
                ),
            ),
        },
{
    validate_user_ref(owner, "owner")?;
    validate_optional_user_metadata_key_fragment(request.prefix.as_str(), "prefix")?;
    validate_optional_user_metadata_key_fragment(request.after.as_str(), "after")?;
    validate_user_metadata_scan_limit(request.limit)?;
    Ok(
        wire::ClientBody::ScanUserMetadata(
            wire::ScanUserMetadataRequest {
                request_id: 0,
                owner: Some(user_ref_to_proto(owner)),
                prefix: request.prefix,
                after: request.after,
                limit: request.limit,
            },
        ),
    )
}

// ----- attachments -----

/// What is wrong with an owner and subject, in the order they are checked.
pub open spec fn pair_problem(owner: UserRef, subject: UserRef) -> Option<Seq<char>> {
    if user_ref_check(owner, "owner"@) is Some {
        user_ref_check(owner, "owner"@)
    } else {
        user_ref_check(subject, "subject"@)
    }
}

/// Creates or replaces an attachment; owner and subject are checked first.
pub fn upsert_attachment_request(
    owner: &UserRef,
    subject: &UserRef,
    attachment_type: AttachmentType,
    config_json: Vec<u8>,
) -> (r: Result<wire::ClientBody, Error>)
    ensures
        match pair_problem(*owner, *subject) {
            Some(m) => r matches Err(e) && is_validation(e, m),
            None => r == Ok::<wire::ClientBody, Error>(
                wire::ClientBody::UpsertUserAttachment(
                    wire::UpsertUserAttachmentRequest {
                        request_id: 0,
                        owner: Some(user_ref_wire(*owner)),
                        subject: Some(user_ref_wire(*subject)),
                        attachment_type: attachment_type_code(attachment_type),
                        config_json,
                    },
                ),
            ),
        },
{
    validate_user_ref(owner, "owner")?;
    validate_user_ref(subject, "subject")?;
    Ok(
        wire::ClientBody::UpsertUserAttachment(
            wire::UpsertUserAttachmentRequest {
                request_id: 0,
                owner: Some(user_ref_to_proto(owner)),
                subject: Some(user_ref_to_proto(subject)),
                attachment_type: attachment_type_to_proto(attachment_type),
                config_json,
            },
        ),
    )
}

/// Deletes an attachment; owner and subject are checked first.
pub fn delete_attachment_request(
    owner: &UserRef,
    subject: &UserRef,
    attachment_type: AttachmentType,
) -> (r: Result<wire::ClientBody, Error>)
    ensures
        match pair_problem(*owner, *subject) {
            Some(m) => r matches Err(e) && is_validation(e, m),
            None => r == Ok::<wire::ClientBody, Error>(
                wire::ClientBody::DeleteUserAttachment(
                    wire::DeleteUserAttachmentRequest {
                        request_id: 0,
                        owner: Some(user_ref_wire(*owner)),
                        subject: Some(user_ref_wire(*subject)),
                        attachment_type: attachment_type_code(attachment_type),
                    },
                ),
            ),
        },
{
    validate_user_ref(owner, "owner")?;
    validate_user_ref(subject, "subject")?;
    Ok(
        wire::ClientBody::DeleteUserAttachment(
            wire::DeleteUserAttachmentRequest {
                request_id: 0,
                owner: Some(user_ref_to_proto(owner)),
                subject: Some(user_ref_to_proto(subject)),
                attachment_type: attachment_type_to_proto(attachment_type),
            },
        ),
    )
}

/// Lists an owner's attachments of one type, or of every type (number 0).
pub fn list_attachments_request(owner: &UserRef, attachment_type: Option<AttachmentType>) -> (r: Result<
    wire::ClientBody,
    Error,
>)
    ensures
        match user_ref_check(*owner, "owner"@) {
            Some(m) => r matches Err(e) && is_validation(e, m),
            None => r == Ok::<wire::ClientBody, Error>(
                wire::ClientBody::ListUserAttachments {
                    request_id: 0,
                    owner: Some(user_ref_wire(*owner)),
                    attachment_type: match attachment_type {
                        Some(t) => attachment_type_code(t),
                        None => wire::ATTACHMENT_TYPE_UNSPECIFIED,
                    },
                },
            ),
        },
{
    validate_user_ref(owner, "owner")?;
    let code = match attachment_type {
        Some(t) => attachment_type_to_proto(t),
        None => wire::ATTACHMENT_TYPE_UNSPECIFIED,
    };
    Ok(
        wire::ClientBody::ListUserAttachments {
            request_id: 0,
            owner: Some(user_ref_to_proto(owner)),
            attachment_type: code,
        },
    )
}

/// The configuration subscriptions and blacklist entries are created with: `{}`.
pub fn empty_config() -> (r: Vec<u8>)
    ensures
        r@ == seq![123u8, 125u8],
{
    let mut v: Vec<u8> = Vec::new();
    v.push(123u8);
    v.push(125u8);
    v
}

/// The subscriptions among listed attachments, in order.
pub fn subscriptions_from_attachments(items: &Vec<Attachment>) -> (r: Vec<Subscription>)
    ensures
        r@ == items@.map_values(|a: Attachment| subscription_of(a)),
{
    let mut out: Vec<Subscription> = Vec::new();
    let mut i: usize = 0;
    while i < items.len()
        invariant
            i <= items@.len(),
            out@ == items@.take(i as int).map_values(|a: Attachment| subscription_of(a)),
        decreases items@.len() - i,
    {
        out.push(subscription_from_attachment(&items[i]));
        assert(items@.take(i as int + 1) =~= items@.take(i as int).push(items@[i as int]));
        i = i + 1;
    }
    assert(items@.take(i as int) =~= items@);
    out
}

/// The blacklist entries among listed attachments, in order.
pub fn blacklist_entries_from_attachments(items: &Vec<Attachment>) -> (r: Vec<BlacklistEntry>)
    ensures
        r@ == items@.map_values(|a: Attachment| blacklist_entry_of(a)),
{
    let mut out: Vec<BlacklistEntry> = Vec::new();
    let mut i: usize = 0;
    while i < items.len()
        invariant
            i <= items@.len(),
            out@ == items@.take(i as int).map_values(|a: Attachment| blacklist_entry_of(a)),
        decreases items@.len() - i,
    {
        out.push(blacklist_entry_from_attachment(&items[i]));
        assert(items@.take(i as int + 1) =~= items@.take(i as int).push(items@[i as int]));
        i = i + 1;
    }
    assert(items@.take(i as int) =~= items@);
    out
}

// ----- cluster -----

/// Lists the users logged in on `node_id`, which must be positive.
pub fn list_node_logged_in_users_request(node_id: i64) -> (r: Result<wire::ClientBody, Error>)
    ensures
        node_id <= 0 ==> (r matches Err(e) && is_validation(e, "node_id is required"@)),
        node_id > 0 ==> r == Ok::<wire::ClientBody, Error>(
            wire::ClientBody::ListNodeLoggedInUsers { request_id: 0, node_id },
        ),
{
    proof {
        reveal_strlit("node_id");
        reveal_strlit(" is required");
        reveal_strlit("node_id is required");
        assert("node_id"@ + " is required"@ =~= "node_id is required"@);
    }
    validate_positive_i64(node_id, "node_id")?;
    Ok(wire::ClientBody::ListNodeLoggedInUsers { request_id: 0, node_id })
}

/// Resolves the sessions of `user`; it must be a valid user reference.
pub fn resolve_user_sessions_request(user: &UserRef) -> (r: Result<wire::ClientBody, Error>)
    ensures
        match user_ref_check(*user, "user"@) {
            Some(m) => r matches Err(e) && is_validation(e, m),
            None => r == Ok::<wire::ClientBody, Error>(
                wire::ClientBody::ResolveUserSessions { request_id: 0, user: Some(user_ref_wire(*user)) },
            ),
        },
{
    validate_user_ref(user, "user")?;
    Ok(wire::ClientBody::ResolveUserSessions { request_id: 0, user: Some(user_ref_to_proto(user)) })
}

// ----- reading answers -----

/// The answer as an `Unit` value; an answer of another kind is a protocol
/// error with message `missing`; a failed request keeps its error.
pub fn reply_unit(answer: Result<RpcValue, Error>, missing: &str) -> (r: Result<(), Error>)
    ensures
        match answer {
            Ok(RpcValue::Unit) => r == Ok::<(), Error>(()),
            Ok(_) => r matches Err(e) && is_protocol(e, missing@),
            Err(e) => r == Err::<(), Error>(e),
        },
{
    match answer {
        Ok(RpcValue::Unit) => Ok(()),
        Ok(_) => Err(Error::protocol(missing)),
        Err(e) => Err(e),
    }
}

/// The answer as a `Message` value; an answer of another kind is a protocol
/// error with message `missing`; a failed request keeps its error.
pub fn reply_message(answer: Result<RpcValue, Error>, missing: &str) -> (r: Result<Message, Error>)
    ensures
        match answer {
            Ok(RpcValue::Message(x)) => r == Ok::<Message, Error>(x),
            Ok(_) => r matches Err(e) && is_protocol(e, missing@),
            Err(e) => r == Err::<Message, Error>(e),
        },
{
    match answer {
        Ok(RpcValue::Message(x)) => Ok(x),
        Ok(_) => Err(Error::protocol(missing)),
        Err(e) => Err(e),
    }
}

/// The answer as a `RelayAccepted` value; an answer of another kind is a protocol
/// error with message `missing`; a failed request keeps its error.
pub fn reply_relay_accepted(answer: Result<RpcValue, Error>, missing: &str) -> (r: Result<RelayAccepted, Error>)
    ensures
        match answer {
            Ok(RpcValue::RelayAccepted(x)) => r == Ok::<RelayAccepted, Error>(x),
            Ok(_) => r matches Err(e) && is_protocol(e, missing@),
            Err(e) => r == Err::<RelayAccepted, Error>(e),
        },
{
    match answer {
        Ok(RpcValue::RelayAccepted(x)) => Ok(x),
        Ok(_) => Err(Error::protocol(missing)),
        Err(e) => Err(e),
    }
}

/// The answer as an `User` value; an answer of another kind is a protocol
/// error with message `missing`; a failed request keeps its error.
pub fn reply_user(answer: Result<RpcValue, Error>, missing: &str) -> (r: Result<User, Error>)
    ensures
        match answer {
            Ok(RpcValue::User(x)) => r == Ok::<User, Error>(x),
            Ok(_) => r matches Err(e) && is_protocol(e, missing@),
            Err(e) => r == Err::<User, Error>(e),
        },
{
    match answer {
        Ok(RpcValue::User(x)) => Ok(x),
        Ok(_) => Err(Error::protocol(missing)),
        Err(e) => Err(e),
    }
}

/// The answer as a `DeleteUserResult` value; an answer of another kind is a protocol
/// error with message `missing`; a failed request keeps its error.
pub fn reply_delete_user_result(answer: Result<RpcValue, Error>, missing: &str) -> (r: Result<DeleteUserResult, Error>)
    ensures
        match answer {
            Ok(RpcValue::DeleteUserResult(x)) => r == Ok::<DeleteUserResult, Error>(x),
            Ok(_) => r matches Err(e) && is_protocol(e, missing@),
            Err(e) => r == Err::<DeleteUserResult, Error>(e),
        },
{
    match answer {
        Ok(RpcValue::DeleteUserResult(x)) => Ok(x),
        Ok(_) => Err(Error::protocol(missing)),
        Err(e) => Err(e),
    }
}

/// The answer as an `UserMetadata` value; an answer of another kind is a protocol
/// error with message `missing`; a failed request keeps its error.
pub fn reply_user_metadata(answer: Result<RpcValue, Error>, missing: &str) -> (r: Result<UserMetadata, Error>)
    ensures
        match answer {
            Ok(RpcValue::UserMetadata(x)) => r == Ok::<UserMetadata, Error>(x),
            Ok(_) => r matches Err(e) && is_protocol(e, missing@),
            Err(e) => r == Err::<UserMetadata, Error>(e),
        },
{
    match answer {
        Ok(RpcValue::UserMetadata(x)) => Ok(x),
        Ok(_) => Err(Error::protocol(missing)),
        Err(e) => Err(e),
    }
}

/// The answer as an `UserMetadataScanResult` value; an answer of another kind is a protocol
/// error with message `missing`; a failed request keeps its error.
pub fn reply_scan_result(answer: Result<RpcValue, Error>, missing: &str) -> (r: Result<UserMetadataScanResult, Error>)
    ensures
        match answer {
            Ok(RpcValue::UserMetadataScanResult(x)) => r == Ok::<UserMetadataScanResult, Error>(x),
            Ok(_) => r matches Err(e) && is_protocol(e, missing@),
            Err(e) => r == Err::<UserMetadataScanResult, Error>(e),
        },
{
    match answer {
        Ok(RpcValue::UserMetadataScanResult(x)) => Ok(x),
        Ok(_) => Err(Error::protocol(missing)),
        Err(e) => Err(e),
    }
}

/// The answer as an `Attachment` value; an answer of another kind is a protocol
/// error with message `missing`; a failed request keeps its error.
pub fn reply_attachment(answer: Result<RpcValue, Error>, missing: &str) -> (r: Result<Attachment, Error>)
    ensures
        match answer {
            Ok(RpcValue::Attachment(x)) => r == Ok::<Attachment, Error>(x),
            Ok(_) => r matches Err(e) && is_protocol(e, missing@),
            Err(e) => r == Err::<Attachment, Error>(e),
        },
{
    match answer {
        Ok(RpcValue::Attachment(x)) => Ok(x),
        Ok(_) => Err(Error::protocol(missing)),
        Err(e) => Err(e),
    }
}

/// The answer as an `Attachments` value; an answer of another kind is a protocol
/// error with message `missing`; a failed request keeps its error.
pub fn reply_attachments(answer: Result<RpcValue, Error>, missing: &str) -> (r: Result<Vec<Attachment>, Error>)
    ensures
        match answer {
            Ok(RpcValue::Attachments(x)) => r == Ok::<Vec<Attachment>, Error>(x),
            Ok(_) => r matches Err(e) && is_protocol(e, missing@),
            Err(e) => r == Err::<Vec<Attachment>, Error>(e),
        },
{
    match answer {
        Ok(RpcValue::Attachments(x)) => Ok(x),
        Ok(_) => Err(Error::protocol(missing)),
        Err(e) => Err(e),
    }
}

/// The answer as a `Messages` value; an answer of another kind is a protocol
/// error with message `missing`; a failed request keeps its error.
pub fn reply_messages(answer: Result<RpcValue, Error>, missing: &str) -> (r: Result<Vec<Message>, Error>)
    ensures
        match answer {
            Ok(RpcValue::Messages(x)) => r == Ok::<Vec<Message>, Error>(x),
            Ok(_) => r matches Err(e) && is_protocol(e, missing@),
            Err(e) => r == Err::<Vec<Message>, Error>(e),
        },
{
    match answer {
        Ok(RpcValue::Messages(x)) => Ok(x),
        Ok(_) => Err(Error::protocol(missing)),
        Err(e) => Err(e),
    }
}

/// The answer as an `Events` value; an answer of another kind is a protocol
/// error with message `missing`; a failed request keeps its error.
pub fn reply_events(answer: Result<RpcValue, Error>, missing: &str) -> (r: Result<Vec<Event>, Error>)
    ensures
        match answer {
            Ok(RpcValue::Events(x)) => r == Ok::<Vec<Event>, Error>(x),
            Ok(_) => r matches Err(e) && is_protocol(e, missing@),
            Err(e) => r == Err::<Vec<Event>, Error>(e),
        },
{
    match answer {
        Ok(RpcValue::Events(x)) => Ok(x),
        Ok(_) => Err(Error::protocol(missing)),
        Err(e) => Err(e),
    }
}

/// The answer as a `ClusterNodes` value; an answer of another kind is a protocol
/// error with message `missing`; a failed request keeps its error.
pub fn reply_cluster_nodes(answer: Result<RpcValue, Error>, missing: &str) -> (r: Result<Vec<ClusterNode>, Error>)
    ensures
        match answer {
            Ok(RpcValue::ClusterNodes(x)) => r == Ok::<Vec<ClusterNode>, Error>(x),
            Ok(_) => r matches Err(e) && is_protocol(e, missing@),
            Err(e) => r == Err::<Vec<ClusterNode>, Error>(e),
        },
{
    match answer {
        Ok(RpcValue::ClusterNodes(x)) => Ok(x),
        Ok(_) => Err(Error::protocol(missing)),
        Err(e) => Err(e),
    }
}

/// The answer as a `LoggedInUsers` value; an answer of another kind is a protocol
/// error with message `missing`; a failed request keeps its error.
pub fn reply_logged_in_users(answer: Result<RpcValue, Error>, missing: &str) -> (r: Result<Vec<LoggedInUser>, Error>)
    ensures
        match answer {
            Ok(RpcValue::LoggedInUsers(x)) => r == Ok::<Vec<LoggedInUser>, Error>(x),
            Ok(_) => r matches Err(e) && is_protocol(e, missing@),
            Err(e) => r == Err::<Vec<LoggedInUser>, Error>(e),
        },
{
    match answer {
        Ok(RpcValue::LoggedInUsers(x)) => Ok(x),
        Ok(_) => Err(Error::protocol(missing)),
        Err(e) => Err(e),
    }
}

/// The answer as a `ResolvedUserSessions` value; an answer of another kind is a protocol
/// error with message `missing`; a failed request keeps its error.
pub fn reply_resolved_user_sessions(answer: Result<RpcValue, Error>, missing: &str) -> (r: Result<ResolvedUserSessions, Error>)
    ensures
        match answer {
            Ok(RpcValue::ResolvedUserSessions(x)) => r == Ok::<ResolvedUserSessions, Error>(x),
            Ok(_) => r matches Err(e) && is_protocol(e, missing@),
            Err(e) => r == Err::<ResolvedUserSessions, Error>(e),
        },
{
    match answer {
        Ok(RpcValue::ResolvedUserSessions(x)) => Ok(x),
        Ok(_) => Err(Error::protocol(missing)),
        Err(e) => Err(e),
    }
}

/// The answer as an `OperationsStatus` value; an answer of another kind is a protocol
/// error with message `missing`; a failed request keeps its error.
pub fn reply_operations_status(answer: Result<RpcValue, Error>, missing: &str) -> (r: Result<OperationsStatus, Error>)
    ensures
        match answer {
            Ok(RpcValue::OperationsStatus(x)) => r == Ok::<OperationsStatus, Error>(x),
            Ok(_) => r matches Err(e) && is_protocol(e, missing@),
            Err(e) => r == Err::<OperationsStatus, Error>(e),
        },
{
    match answer {
        Ok(RpcValue::OperationsStatus(x)) => Ok(x),
        Ok(_) => Err(Error::protocol(missing)),
        Err(e) => Err(e),
    }
}

/// The answer as a `Metrics` value; an answer of another kind is a protocol
/// error with message `missing`; a failed request keeps its error.
pub fn reply_metrics(answer: Result<RpcValue, Error>, missing: &str) -> (r: Result<String, Error>)
    ensures
        match answer {
            Ok(RpcValue::Metrics(x)) => r == Ok::<String, Error>(x),
            Ok(_) => r matches Err(e) && is_protocol(e, missing@),
            Err(e) => r == Err::<String, Error>(e),
        },
{
    match answer {
        Ok(RpcValue::Metrics(x)) => Ok(x),
        Ok(_) => Err(Error::protocol(missing)),
        Err(e) => Err(e),
    }
}

} // verus!
