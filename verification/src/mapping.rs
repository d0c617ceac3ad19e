//! Conversion of decoded protocol messages into the SDK's data types, with the
//! checks the protocol asks for (a session reference must name a serving node
//! and a session, an attachment type must be known).

use vstd::prelude::*;

use crate::errors::{is_protocol, Error};
use crate::text::{decimal_int, i64_to_decimal, join2};
use crate::types::{
    Attachment, AttachmentType, BlacklistEntry, ClusterNode, DeliveryMode, Event,
    EventLogTrimStatus, LoggedInUser, LoginInfo, Message, MessageCursor, MessageTrimStatus,
    OnlineNodePresence, OperationsStatus, Packet, PeerOriginStatus, PeerStatus, ProjectionStatus,
    RelayAccepted, ResolvedSession, ResolvedUserSessions, SessionRef, Subscription, User,
    UserMetadata, UserMetadataScanResult, UserRef,
};
use crate::wire;

verus! {

// ----- enumerations -----

/// The wire number of a delivery mode.
pub open spec fn delivery_mode_code(mode: DeliveryMode) -> i32 {
    match mode {
        DeliveryMode::Unspecified => wire::DELIVERY_MODE_UNSPECIFIED,
        DeliveryMode::BestEffort => wire::DELIVERY_MODE_BEST_EFFORT,
        DeliveryMode::RouteRetry => wire::DELIVERY_MODE_ROUTE_RETRY,
    }
}

/// The delivery mode a wire number stands for; unknown numbers are unspecified.
pub open spec fn delivery_mode_of_code(code: i32) -> DeliveryMode {
    if code == wire::DELIVERY_MODE_BEST_EFFORT {
        DeliveryMode::BestEffort
    } else if code == wire::DELIVERY_MODE_ROUTE_RETRY {
        DeliveryMode::RouteRetry
    } else {
        DeliveryMode::Unspecified
    }
}

/// The wire number of a delivery mode.
pub fn delivery_mode_to_proto(mode: DeliveryMode) -> (r: i32)
    ensures
        r == delivery_mode_code(mode),
{
    match mode {
        DeliveryMode::Unspecified => wire::DELIVERY_MODE_UNSPECIFIED,
        DeliveryMode::BestEffort => wire::DELIVERY_MODE_BEST_EFFORT,
        DeliveryMode::RouteRetry => wire::DELIVERY_MODE_ROUTE_RETRY,
    }
}

/// The delivery mode of a wire number; unknown numbers are `Unspecified`.
pub fn delivery_mode_from_proto(mode: i32) -> (r: DeliveryMode)
    ensures
        r == delivery_mode_of_code(mode),
{
    if mode == wire::DELIVERY_MODE_BEST_EFFORT {
        DeliveryMode::BestEffort
    } else if mode == wire::DELIVERY_MODE_ROUTE_RETRY {
        DeliveryMode::RouteRetry
    } else {
        DeliveryMode::Unspecified
    }
}

/// Reading back the number of a delivery mode gives the mode.
pub proof fn law_delivery_mode_round_trip(mode: DeliveryMode)
    ensures
        delivery_mode_of_code(delivery_mode_code(mode)) == mode,
{
}

/// The wire number of an attachment type.
pub open spec fn attachment_type_code(t: AttachmentType) -> i32 {
    match t {
        AttachmentType::ChannelManager => wire::ATTACHMENT_TYPE_CHANNEL_MANAGER,
        AttachmentType::ChannelWriter => wire::ATTACHMENT_TYPE_CHANNEL_WRITER,
        AttachmentType::ChannelSubscription => wire::ATTACHMENT_TYPE_CHANNEL_SUBSCRIPTION,
        AttachmentType::UserBlacklist => wire::ATTACHMENT_TYPE_USER_BLACKLIST,
    }
}

/// The attachment type a wire number stands for, if any.
pub open spec fn attachment_type_of_code(code: i32) -> Option<AttachmentType> {
    if code == wire::ATTACHMENT_TYPE_CHANNEL_MANAGER {
        Some(AttachmentType::ChannelManager)
    } else if code == wire::ATTACHMENT_TYPE_CHANNEL_WRITER {
        Some(AttachmentType::ChannelWriter)
    } else if code == wire::ATTACHMENT_TYPE_CHANNEL_SUBSCRIPTION {
        Some(AttachmentType::ChannelSubscription)
    } else if code == wire::ATTACHMENT_TYPE_USER_BLACKLIST {
        Some(AttachmentType::UserBlacklist)
    } else {
        None
    }
}

/// The error text for an attachment type number that names no type.
pub open spec fn unsupported_attachment_type(code: i32) -> Seq<char> {
    "unsupported attachment type "@ + decimal_int(code as int)
}

/// The wire number of an attachment type.
pub fn attachment_type_to_proto(attachment_type: AttachmentType) -> (r: i32)
    ensures
        r == attachment_type_code(attachment_type),
{
    match attachment_type {
        AttachmentType::ChannelManager => wire::ATTACHMENT_TYPE_CHANNEL_MANAGER,
        AttachmentType::ChannelWriter => wire::ATTACHMENT_TYPE_CHANNEL_WRITER,
        AttachmentType::ChannelSubscription => wire::ATTACHMENT_TYPE_CHANNEL_SUBSCRIPTION,
        AttachmentType::UserBlacklist => wire::ATTACHMENT_TYPE_USER_BLACKLIST,
    }
}

/// The attachment type of a wire number; 0 and unknown numbers are refused.
pub fn attachment_type_from_proto(attachment_type: i32) -> (r: Result<AttachmentType, Error>)
    ensures
        match attachment_type_of_code(attachment_type) {
            Some(t) => r == Ok::<AttachmentType, Error>(t),
            None => r matches Err(e) && is_protocol(
                e,
                unsupported_attachment_type(attachment_type),
            ),
        },
{
    if attachment_type == wire::ATTACHMENT_TYPE_CHANNEL_MANAGER {
        Ok(AttachmentType::ChannelManager)
    } else if attachment_type == wire::ATTACHMENT_TYPE_CHANNEL_WRITER {
        Ok(AttachmentType::ChannelWriter)
    } else if attachment_type == wire::ATTACHMENT_TYPE_CHANNEL_SUBSCRIPTION {
        Ok(AttachmentType::ChannelSubscription)
    } else if attachment_type == wire::ATTACHMENT_TYPE_USER_BLACKLIST {
        Ok(AttachmentType::UserBlacklist)
    } else {
        let n = i64_to_decimal(attachment_type as i64);
        let m = join2("unsupported attachment type ", n.as_str());
        Err(Error::protocol(m.as_str()))
    }
}

/// Reading back the number of an attachment type gives the type.
pub proof fn law_attachment_type_round_trip(t: AttachmentType)
    ensures
        attachment_type_of_code(attachment_type_code(t)) == Some(t),
{
}

// ----- references -----

/// A user reference as sent on the wire.
pub open spec fn user_ref_wire(u: UserRef) -> wire::UserRef {
    wire::UserRef { node_id: u.node_id, user_id: u.user_id }
}

/// A received user reference; an absent one reads as `{0, 0}`.
pub open spec fn user_ref_of(o: Option<wire::UserRef>) -> UserRef {
    match o {
        Some(u) => UserRef { node_id: u.node_id, user_id: u.user_id },
        None => UserRef { node_id: 0, user_id: 0 },
    }
}

/// A user reference on the wire.
pub fn user_ref_to_proto(value: &UserRef) -> (r: wire::UserRef)
    ensures
        r == user_ref_wire(*value),
{
    wire::UserRef { node_id: value.node_id, user_id: value.user_id }
}

/// A message cursor on the wire.
pub fn cursor_to_proto(value: &MessageCursor) -> (r: wire::MessageCursor)
    ensures
        r == (wire::MessageCursor { node_id: value.node_id, seq: value.seq }),
{
    wire::MessageCursor { node_id: value.node_id, seq: value.seq }
}

/// A session reference on the wire.
pub fn session_ref_to_proto(value: &SessionRef) -> (r: wire::SessionRef)
    ensures
        r.serving_node_id == value.serving_node_id,
        r.session_id == value.session_id,
{
    wire::SessionRef {
        serving_node_id: value.serving_node_id,
        session_id: value.session_id.clone(),
    }
}

/// A user reference from the wire; absent reads as the default.
pub fn user_ref_from_proto(value: Option<wire::UserRef>) -> (r: UserRef)
    ensures
        r == user_ref_of(value),
{
    match value {
        Some(u) => UserRef { node_id: u.node_id, user_id: u.user_id },
        None => UserRef { node_id: 0, user_id: 0 },
    }
}

/// Sending a user reference and reading it back gives the same reference.
pub proof fn law_user_ref_round_trip(u: UserRef)
    ensures
        user_ref_of(Some(user_ref_wire(u))) == u,
{
}

/// What is wrong with a received session reference, if anything.
pub open spec fn session_ref_problem(o: Option<wire::SessionRef>) -> Option<Seq<char>> {
    match o {
        None => Some("missing session_ref"@),
        Some(s) => if s.serving_node_id <= 0 {
            Some("invalid session_ref.serving_node_id"@)
        } else if s.session_id@.len() == 0 {
            Some("invalid session_ref.session_id"@)
        } else {
            None
        },
    }
}

/// The session reference a valid wire reference stands for.
pub open spec fn session_ref_of(s: wire::SessionRef) -> SessionRef {
    SessionRef { serving_node_id: s.serving_node_id, session_id: s.session_id }
}

/// What is wrong with an optional session reference (absent is fine).
pub open spec fn optional_session_problem(o: Option<wire::SessionRef>) -> Option<Seq<char>> {
    match o {
        None => None,
        Some(s) => session_ref_problem(Some(s)),
    }
}

/// An optional session reference, converted.
pub open spec fn optional_session_of(o: Option<wire::SessionRef>) -> Option<SessionRef> {
    match o {
        None => None,
        Some(s) => Some(session_ref_of(s)),
    }
}

/// A session reference from the wire; it must be present and complete.
pub fn session_ref_from_proto(value: Option<wire::SessionRef>) -> (r: Result<SessionRef, Error>)
    ensures
        match session_ref_problem(value) {
            Some(m) => r matches Err(e) && is_protocol(e, m),
            None => r == Ok::<SessionRef, Error>(session_ref_of(value->0)),
        },
{
    let value = match value {
        Some(v) => v,
        None => {
            return Err(Error::protocol("missing session_ref"));
        },
    };
    if value.serving_node_id <= 0 {
        return Err(Error::protocol("invalid session_ref.serving_node_id"));
    }
    if value.session_id.unicode_len() == 0 {
        return Err(Error::protocol("invalid session_ref.session_id"));
    }
    Ok(SessionRef { serving_node_id: value.serving_node_id, session_id: value.session_id })
}

/// A session reference from the wire when one is present.
pub fn optional_session_ref_from_proto(value: Option<wire::SessionRef>) -> (r: Result<
    Option<SessionRef>,
    Error,
>)
    ensures
        match optional_session_problem(value) {
            Some(m) => r matches Err(e) && is_protocol(e, m),
            None => r == Ok::<Option<SessionRef>, Error>(optional_session_of(value)),
        },
{
    match value {
        None => Ok(None),
        Some(s) => {
            let s = session_ref_from_proto(Some(s))?;
            Ok(Some(s))
        },
    }
}

/// Sending a session reference and reading it back gives the same reference,
/// whenever it names a serving node and a session.
pub proof fn law_session_ref_round_trip(s: SessionRef)
    requires
        s.serving_node_id > 0,
        s.session_id@.len() > 0,
    ensures
        session_ref_problem(
            Some(wire::SessionRef { serving_node_id: s.serving_node_id, session_id: s.session_id }),
        ) is None,
        session_ref_of(
            wire::SessionRef { serving_node_id: s.serving_node_id, session_id: s.session_id },
        ) == s,
{
}

// ----- records -----

/// The user a wire user stands for.
pub open spec fn user_of(w: wire::User) -> User {
    User {
        node_id: w.node_id,
        user_id: w.user_id,
        username: w.username,
        role: w.role,
        profile_json: w.profile_json,
        system_reserved: w.system_reserved,
        created_at: w.created_at,
        updated_at: w.updated_at,
        origin_node_id: w.origin_node_id,
        login_name: w.login_name,
    }
}

/// A user from the wire; it must be present.
pub fn user_from_proto(value: Option<wire::User>) -> (r: Result<User, Error>)
    ensures
        match value {
            Some(w) => r == Ok::<User, Error>(user_of(w)),
            None => r matches Err(e) && is_protocol(e, "missing user"@),
        },
{
    let w = match value {
        Some(w) => w,
        None => {
            return Err(Error::protocol("missing user"));
        },
    };
    Ok(
        User {
            node_id: w.node_id,
            user_id: w.user_id,
            username: w.username,
            role: w.role,
            profile_json: w.profile_json,
            system_reserved: w.system_reserved,
            created_at: w.created_at,
            updated_at: w.updated_at,
            origin_node_id: w.origin_node_id,
            login_name: w.login_name,
        },
    )
}

/// The metadata entry a wire entry stands for.
pub open spec fn metadata_of(w: wire::UserMetadata) -> UserMetadata {
    UserMetadata {
        owner: user_ref_of(w.owner),
        key: w.key,
        value: w.value,
        updated_at: w.updated_at,
        deleted_at: w.deleted_at,
        expires_at: w.expires_at,
        origin_node_id: w.origin_node_id,
    }
}

fn metadata_from_wire(w: wire::UserMetadata) -> (r: UserMetadata)
    ensures
        r == metadata_of(w),
{
    UserMetadata {
        owner: user_ref_from_proto(w.owner),
        key: w.key,
        value: w.value,
        updated_at: w.updated_at,
        deleted_at: w.deleted_at,
        expires_at: w.expires_at,
        origin_node_id: w.origin_node_id,
    }
}

/// A metadata entry from the wire; it must be present.
pub fn user_metadata_from_proto(value: Option<wire::UserMetadata>) -> (r: Result<
    UserMetadata,
    Error,
>)
    ensures
        match value {
            Some(w) => r == Ok::<UserMetadata, Error>(metadata_of(w)),
            None => r matches Err(e) && is_protocol(e, "missing user_metadata"@),
        },
{
    match value {
        Some(w) => Ok(metadata_from_wire(w)),
        None => Err(Error::protocol("missing user_metadata")),
    }
}

/// A scan result holds the page's entries, converted in order, with the
/// server's count and continuation key.
pub open spec fn scan_result_of(r: UserMetadataScanResult, w: wire::ScanUserMetadataResponse) -> bool {
    &&& r.items@ == w.items@.map_values(|m: wire::UserMetadata| metadata_of(m))
    &&& r.count == w.count
    &&& r.next_after == w.next_after
}

/// A page of metadata entries from the wire.
pub fn user_metadata_scan_result_from_proto(value: wire::ScanUserMetadataResponse) -> (r: Result<
    UserMetadataScanResult,
    Error,
>)
    ensures
        r matches Ok(s) && scan_result_of(s, value),
{
    let ghost src = value.items@;
    let mut items: Vec<UserMetadata> = Vec::new();
    for item in it: value.items
        invariant
            src == it.seq(),
            items@ == it.seq().take(it.index() as int).map_values(
                |m: wire::UserMetadata| metadata_of(m),
            ),
    {
        items.push(metadata_from_wire(item));
        assert(it.seq().take(it.index() as int + 1) =~= it.seq().take(it.index() as int).push(item));
    }
    assert(src.take(src.len() as int) =~= src);
    Ok(UserMetadataScanResult { items, count: value.count, next_after: value.next_after })
}

/// The message a wire message stands for.
pub open spec fn message_of(w: wire::Message) -> Message {
    Message {
        recipient: user_ref_of(w.recipient),
        node_id: w.node_id,
        seq: w.seq,
        sender: user_ref_of(w.sender),
        body: w.body,
        created_at_hlc: w.created_at_hlc,
    }
}

fn message_from_wire(w: wire::Message) -> (r: Message)
    ensures
        r == message_of(w),
{
    Message {
        recipient: user_ref_from_proto(w.recipient),
        node_id: w.node_id,
        seq: w.seq,
        sender: user_ref_from_proto(w.sender),
        body: w.body,
        created_at_hlc: w.created_at_hlc,
    }
}

/// A message from the wire; it must be present.
pub fn message_from_proto(value: Option<wire::Message>) -> (r: Result<Message, Error>)
    ensures
        match value {
            Some(w) => r == Ok::<Message, Error>(message_of(w)),
            None => r matches Err(e) && is_protocol(e, "missing message"@),
        },
{
    match value {
        Some(w) => Ok(message_from_wire(w)),
        None => Err(Error::protocol("missing message")),
    }
}

/// The packet a wire packet stands for, once its target session is known good.
pub open spec fn packet_of(w: wire::Packet) -> Packet {
    Packet {
        packet_id: w.packet_id,
        source_node_id: w.source_node_id,
        target_node_id: w.target_node_id,
        recipient: user_ref_of(w.recipient),
        sender: user_ref_of(w.sender),
        body: w.body,
        delivery_mode: delivery_mode_of_code(w.delivery_mode),
        target_session: optional_session_of(w.target_session),
    }
}

/// A transient packet from the wire; it must be present, with a complete target session if any.
pub fn packet_from_proto(value: Option<wire::Packet>) -> (r: Result<Packet, Error>)
    ensures
        match value {
            None => r matches Err(e) && is_protocol(e, "missing packet"@),
            Some(w) => match optional_session_problem(w.target_session) {
                Some(m) => r matches Err(e) && is_protocol(e, m),
                None => r == Ok::<Packet, Error>(packet_of(w)),
            },
        },
{
    let w = match value {
        Some(w) => w,
        None => {
            return Err(Error::protocol("missing packet"));
        },
    };
    let target_session = optional_session_ref_from_proto(w.target_session)?;
    Ok(
        Packet {
            packet_id: w.packet_id,
            source_node_id: w.source_node_id,
            target_node_id: w.target_node_id,
            recipient: user_ref_from_proto(w.recipient),
            sender: user_ref_from_proto(w.sender),
            body: w.body,
            delivery_mode: delivery_mode_from_proto(w.delivery_mode),
            target_session,
        },
    )
}

/// The acceptance a wire acceptance stands for, once its target session is known good.
pub open spec fn relay_accepted_of(w: wire::TransientAccepted) -> RelayAccepted {
    RelayAccepted {
        packet_id: w.packet_id,
        source_node_id: w.source_node_id,
        target_node_id: w.target_node_id,
        recipient: user_ref_of(w.recipient),
        delivery_mode: delivery_mode_of_code(w.delivery_mode),
        target_session: optional_session_of(w.target_session),
    }
}

/// The acceptance of a transient packet from the wire; it must be present.
pub fn relay_accepted_from_proto(value: Option<wire::TransientAccepted>) -> (r: Result<
    RelayAccepted,
    Error,
>)
    ensures
        match value {
            None => r matches Err(e) && is_protocol(e, "missing transient_accepted"@),
            Some(w) => match optional_session_problem(w.target_session) {
                Some(m) => r matches Err(e) && is_protocol(e, m),
                None => r == Ok::<RelayAccepted, Error>(relay_accepted_of(w)),
            },
        },
{
    let w = match value {
        Some(w) => w,
        None => {
            return Err(Error::protocol("missing transient_accepted"));
        },
    };
    let target_session = optional_session_ref_from_proto(w.target_session)?;
    Ok(
        RelayAccepted {
            packet_id: w.packet_id,
            source_node_id: w.source_node_id,
            target_node_id: w.target_node_id,
            recipient: user_ref_from_proto(w.recipient),
            delivery_mode: delivery_mode_from_proto(w.delivery_mode),
            target_session,
        },
    )
}

/// The presence entry a wire entry stands for.
pub open spec fn presence_of(w: wire::OnlineNodePresence) -> OnlineNodePresence {
    OnlineNodePresence {
        serving_node_id: w.serving_node_id,
        session_count: w.session_count,
        transport_hint: w.transport_hint,
    }
}

/// A node where a user is online, from the wire.
pub fn online_node_presence_from_proto(value: wire::OnlineNodePresence) -> (r: OnlineNodePresence)
    ensures
        r == presence_of(value),
{
    OnlineNodePresence {
        serving_node_id: value.serving_node_id,
        session_count: value.session_count,
        transport_hint: value.transport_hint,
    }
}

/// The resolved session a wire entry stands for, once its session is known good.
pub open spec fn resolved_session_of(w: wire::ResolvedSession) -> ResolvedSession {
    ResolvedSession {
        session: session_ref_of(w.session->0),
        transport: w.transport,
        transient_capable: w.transient_capable,
    }
}

/// One resolved session from the wire; its session reference must be complete.
pub fn resolved_session_from_proto(value: wire::ResolvedSession) -> (r: Result<
    ResolvedSession,
    Error,
>)
    ensures
        match session_ref_problem(value.session) {
            Some(m) => r matches Err(e) && is_protocol(e, m),
            None => r == Ok::<ResolvedSession, Error>(resolved_session_of(value)),
        },
{
    let session = session_ref_from_proto(value.session)?;
    Ok(
        ResolvedSession {
            session,
            transport: value.transport,
            transient_capable: value.transient_capable,
        },
    )
}

/// The index of the first item whose session reference is refused, if any.
pub open spec fn first_bad_session(items: Seq<wire::ResolvedSession>, i: int) -> bool {
    &&& 0 <= i < items.len()
    &&& session_ref_problem(items[i].session) is Some
    &&& forall|j: int| 0 <= j < i ==> (#[trigger] session_ref_problem(items[j].session)) is None
}

/// A user's sessions as reported: the user, every presence entry and every
/// session, converted in order.
pub open spec fn resolved_user_sessions_of(
    r: ResolvedUserSessions,
    w: wire::ResolveUserSessionsResponse,
) -> bool {
    &&& r.user == user_ref_of(w.user)
    &&& r.presence@ == w.presence@.map_values(|p: wire::OnlineNodePresence| presence_of(p))
    &&& r.sessions@ == w.items@.map_values(|s: wire::ResolvedSession| resolved_session_of(s))
}

/// A user's resolved sessions from the wire.
pub fn resolved_user_sessions_from_proto(value: wire::ResolveUserSessionsResponse) -> (r: Result<
    ResolvedUserSessions,
    Error,
>)
    ensures
        (forall|j: int| 0 <= j < value.items@.len() ==> (#[trigger] session_ref_problem(value.items@[j].session)) is None)
            ==> (r matches Ok(s) && resolved_user_sessions_of(s, value)),
        forall|i: int| #[trigger] first_bad_session(value.items@, i) ==> (r matches Err(e) && is_protocol(
            e,
            session_ref_problem(value.items@[i].session)->0,
        )),
{
    let ghost w = value;
    let user = user_ref_from_proto(value.user);
    let mut presence: Vec<OnlineNodePresence> = Vec::new();
    for p in it: value.presence
        invariant
            w.presence@ == it.seq(),
            presence@ == it.seq().take(it.index() as int).map_values(
                |p: wire::OnlineNodePresence| presence_of(p),
            ),
    {
        presence.push(online_node_presence_from_proto(p));
        assert(it.seq().take(it.index() as int + 1) =~= it.seq().take(it.index() as int).push(p));
    }
    assert(w.presence@.take(w.presence@.len() as int) =~= w.presence@);
    let mut sessions: Vec<ResolvedSession> = Vec::new();
    for item in it: value.items
        invariant
            w.items@ == it.seq(),
            forall|j: int| 0 <= j < it.index() ==> (#[trigger] session_ref_problem(it.seq()[j].session)) is None,
            sessions@ == it.seq().take(it.index() as int).map_values(
                |s: wire::ResolvedSession| resolved_session_of(s),
            ),
    {
        let ghost k = it.index() as int;
        let ghost cur = item;
        match resolved_session_from_proto(item) {
            Ok(s) => {
                sessions.push(s);
                assert(it.seq().take(k + 1) =~= it.seq().take(k).push(cur));
            },
            Err(e) => {
                proof {
                    assert forall|i: int| #[trigger] first_bad_session(w.items@, i) implies i == k by {
                        if i < k {
                        } else if i > k {
                            assert(session_ref_problem(w.items@[k].session) is None);
                        }
                    }
                }
                return Err(e);
            },
        }
    }
    assert(w.items@.take(w.items@.len() as int) =~= w.items@);
    Ok(ResolvedUserSessions { user, presence, sessions })
}

/// The attachment a wire attachment stands for, once its type is known.
pub open spec fn attachment_of(w: wire::Attachment) -> Attachment {
    Attachment {
        owner: user_ref_of(w.owner),
        subject: user_ref_of(w.subject),
        attachment_type: attachment_type_of_code(w.attachment_type)->0,
        config_json: w.config_json,
        attached_at: w.attached_at,
        deleted_at: w.deleted_at,
        origin_node_id: w.origin_node_id,
    }
}

fn attachment_from_wire(w: wire::Attachment) -> (r: Result<Attachment, Error>)
    ensures
        match attachment_type_of_code(w.attachment_type) {
            Some(_) => r == Ok::<Attachment, Error>(attachment_of(w)),
            None => r matches Err(e) && is_protocol(e, unsupported_attachment_type(w.attachment_type)),
        },
{
    let attachment_type = attachment_type_from_proto(w.attachment_type)?;
    Ok(
        Attachment {
            owner: user_ref_from_proto(w.owner),
            subject: user_ref_from_proto(w.subject),
            attachment_type,
            config_json: w.config_json,
            attached_at: w.attached_at,
            deleted_at: w.deleted_at,
            origin_node_id: w.origin_node_id,
        },
    )
}

/// An attachment from the wire; it must be present, with a known type.
pub fn attachment_from_proto(value: Option<wire::Attachment>) -> (r: Result<Attachment, Error>)
    ensures
        match value {
            None => r matches Err(e) && is_protocol(e, "missing attachment"@),
            Some(w) => match attachment_type_of_code(w.attachment_type) {
                Some(_) => r == Ok::<Attachment, Error>(attachment_of(w)),
                None => r matches Err(e) && is_protocol(
                    e,
                    unsupported_attachment_type(w.attachment_type),
                ),
            },
        },
{
    match value {
        Some(w) => attachment_from_wire(w),
        None => Err(Error::protocol("missing attachment")),
    }
}

/// A subscription read from a channel-subscription attachment: the owner
/// subscribes to the subject.
pub open spec fn subscription_of(a: Attachment) -> Subscription {
    Subscription {
        subscriber: a.owner,
        channel: a.subject,
        subscribed_at: a.attached_at,
        deleted_at: a.deleted_at,
        origin_node_id: a.origin_node_id,
    }
}

/// A blacklist entry read from a user-blacklist attachment: the owner blocks
/// the subject.
pub open spec fn blacklist_entry_of(a: Attachment) -> BlacklistEntry {
    BlacklistEntry {
        owner: a.owner,
        blocked: a.subject,
        blocked_at: a.attached_at,
        deleted_at: a.deleted_at,
        origin_node_id: a.origin_node_id,
    }
}

/// The subscription an attachment records.
pub fn subscription_from_attachment(value: &Attachment) -> (r: Subscription)
    ensures
        r == subscription_of(*value),
{
    Subscription {
        subscriber: UserRef { node_id: value.owner.node_id, user_id: value.owner.user_id },
        channel: UserRef { node_id: value.subject.node_id, user_id: value.subject.user_id },
        subscribed_at: value.attached_at.clone(),
        deleted_at: value.deleted_at.clone(),
        origin_node_id: value.origin_node_id,
    }
}

/// The blacklist entry an attachment records.
pub fn blacklist_entry_from_attachment(value: &Attachment) -> (r: BlacklistEntry)
    ensures
        r == blacklist_entry_of(*value),
{
    BlacklistEntry {
        owner: UserRef { node_id: value.owner.node_id, user_id: value.owner.user_id },
        blocked: UserRef { node_id: value.subject.node_id, user_id: value.subject.user_id },
        blocked_at: value.attached_at.clone(),
        deleted_at: value.deleted_at.clone(),
        origin_node_id: value.origin_node_id,
    }
}

/// A subscription from an attachment on the wire.
pub fn subscription_from_proto(value: Option<wire::Attachment>) -> (r: Result<Subscription, Error>)
    ensures
        match value {
            None => r matches Err(e) && is_protocol(e, "missing attachment"@),
            Some(w) => match attachment_type_of_code(w.attachment_type) {
                Some(_) => r == Ok::<Subscription, Error>(subscription_of(attachment_of(w))),
                None => r matches Err(e) && is_protocol(
                    e,
                    unsupported_attachment_type(w.attachment_type),
                ),
            },
        },
{
    let a = attachment_from_proto(value)?;
    Ok(subscription_from_attachment(&a))
}

/// A blacklist entry from an attachment on the wire.
pub fn blacklist_entry_from_proto(value: Option<wire::Attachment>) -> (r: Result<
    BlacklistEntry,
    Error,
>)
    ensures
        match value {
            None => r matches Err(e) && is_protocol(e, "missing attachment"@),
            Some(w) => match attachment_type_of_code(w.attachment_type) {
                Some(_) => r == Ok::<BlacklistEntry, Error>(blacklist_entry_of(attachment_of(w))),
                None => r matches Err(e) && is_protocol(
                    e,
                    unsupported_attachment_type(w.attachment_type),
                ),
            },
        },
{
    let a = attachment_from_proto(value)?;
    Ok(
        BlacklistEntry {
            owner: a.owner,
            blocked: a.subject,
            blocked_at: a.attached_at,
            deleted_at: a.deleted_at,
            origin_node_id: a.origin_node_id,
        },
    )
}

/// The event a wire event stands for.
pub open spec fn event_of(w: wire::Event) -> Event {
    Event {
        sequence: w.sequence,
        event_id: w.event_id,
        event_type: w.event_type,
        aggregate: w.aggregate,
        aggregate_node_id: w.aggregate_node_id,
        aggregate_id: w.aggregate_id,
        hlc: w.hlc,
        origin_node_id: w.origin_node_id,
        event_json: w.event_json,
    }
}

fn event_from_wire(w: wire::Event) -> (r: Event)
    ensures
        r == event_of(w),
{
    Event {
        sequence: w.sequence,
        event_id: w.event_id,
        event_type: w.event_type,
        aggregate: w.aggregate,
        aggregate_node_id: w.aggregate_node_id,
        aggregate_id: w.aggregate_id,
        hlc: w.hlc,
        origin_node_id: w.origin_node_id,
        event_json: w.event_json,
    }
}

/// An event from the wire; it must be present.
pub fn event_from_proto(value: Option<wire::Event>) -> (r: Result<Event, Error>)
    ensures
        match value {
            Some(w) => r == Ok::<Event, Error>(event_of(w)),
            None => r matches Err(e) && is_protocol(e, "missing event"@),
        },
{
    match value {
        Some(w) => Ok(event_from_wire(w)),
        None => Err(Error::protocol("missing event")),
    }
}

/// The cluster node a wire node stands for.
pub open spec fn cluster_node_of(w: wire::ClusterNode) -> ClusterNode {
    ClusterNode {
        node_id: w.node_id,
        is_local: w.is_local,
        configured_url: w.configured_url,
        source: w.source,
    }
}

/// A cluster node from the wire; it must be present.
pub fn cluster_node_from_proto(value: Option<wire::ClusterNode>) -> (r: Result<ClusterNode, Error>)
    ensures
        match value {
            Some(w) => r == Ok::<ClusterNode, Error>(cluster_node_of(w)),
            None => r matches Err(e) && is_protocol(e, "missing cluster node"@),
        },
{
    match value {
        Some(w) => Ok(
            ClusterNode {
                node_id: w.node_id,
                is_local: w.is_local,
                configured_url: w.configured_url,
                source: w.source,
            },
        ),
        None => Err(Error::protocol("missing cluster node")),
    }
}

/// The logged-in user a wire entry stands for.
pub open spec fn logged_in_user_of(w: wire::LoggedInUser) -> LoggedInUser {
    LoggedInUser {
        node_id: w.node_id,
        user_id: w.user_id,
        username: w.username,
        login_name: w.login_name,
    }
}

/// A logged-in user from the wire; it must be present.
pub fn logged_in_user_from_proto(value: Option<wire::LoggedInUser>) -> (r: Result<
    LoggedInUser,
    Error,
>)
    ensures
        match value {
            Some(w) => r == Ok::<LoggedInUser, Error>(logged_in_user_of(w)),
            None => r matches Err(e) && is_protocol(e, "missing logged-in user"@),
        },
{
    match value {
        Some(w) => Ok(
            LoggedInUser {
                node_id: w.node_id,
                user_id: w.user_id,
                username: w.username,
                login_name: w.login_name,
            },
        ),
        None => Err(Error::protocol("missing logged-in user")),
    }
}

// ----- operations status -----

/// The message-trim counters; absent counters read as zero and empty.
pub open spec fn message_trim_matches(r: MessageTrimStatus, o: Option<wire::MessageTrimStatus>) -> bool {
    match o {
        Some(w) => r.trimmed_total == w.trimmed_total && r.last_trimmed_at == w.last_trimmed_at,
        None => r.trimmed_total == 0 && r.last_trimmed_at@.len() == 0,
    }
}

/// The message trimming counters from the wire; absent reads as defaults.
pub fn message_trim_status_from_proto(value: Option<wire::MessageTrimStatus>) -> (r: MessageTrimStatus)
    ensures
        message_trim_matches(r, value),
{
    match value {
        Some(w) => MessageTrimStatus { trimmed_total: w.trimmed_total, last_trimmed_at: w.last_trimmed_at },
        None => MessageTrimStatus { trimmed_total: 0, last_trimmed_at: String::new() },
    }
}

/// The event-log-trim counters a wire entry stands for.
pub open spec fn event_log_trim_of(w: wire::EventLogTrimStatus) -> EventLogTrimStatus {
    EventLogTrimStatus { trimmed_total: w.trimmed_total, last_trimmed_at: w.last_trimmed_at }
}

/// The event log trimming status from the wire.
pub fn event_log_trim_status_from_proto(value: wire::EventLogTrimStatus) -> (r: Result<
    EventLogTrimStatus,
    Error,
>)
    ensures
        r == Ok::<EventLogTrimStatus, Error>(event_log_trim_of(value)),
{
    Ok(EventLogTrimStatus { trimmed_total: value.trimmed_total, last_trimmed_at: value.last_trimmed_at })
}

/// The projection counters; absent counters read as zero and empty.
pub open spec fn projection_matches(r: ProjectionStatus, o: Option<wire::ProjectionStatus>) -> bool {
    match o {
        Some(w) => r.pending_total == w.pending_total && r.last_failed_at == w.last_failed_at,
        None => r.pending_total == 0 && r.last_failed_at@.len() == 0,
    }
}

/// The projection status from the wire; absent reads as defaults.
pub fn projection_status_from_proto(value: Option<wire::ProjectionStatus>) -> (r: ProjectionStatus)
    ensures
        projection_matches(r, value),
{
    match value {
        Some(w) => ProjectionStatus { pending_total: w.pending_total, last_failed_at: w.last_failed_at },
        None => ProjectionStatus { pending_total: 0, last_failed_at: String::new() },
    }
}

/// The per-origin replication state a wire entry stands for.
pub open spec fn peer_origin_of(w: wire::PeerOriginStatus) -> PeerOriginStatus {
    PeerOriginStatus {
        origin_node_id: w.origin_node_id,
        acked_event_id: w.acked_event_id,
        applied_event_id: w.applied_event_id,
        unconfirmed_events: w.unconfirmed_events,
        cursor_updated_at: w.cursor_updated_at,
        remote_last_event_id: w.remote_last_event_id,
        pending_catchup: w.pending_catchup,
    }
}

/// What a peer knows of one origin node, from the wire.
pub fn peer_origin_status_from_proto(value: wire::PeerOriginStatus) -> (r: Result<
    PeerOriginStatus,
    Error,
>)
    ensures
        r == Ok::<PeerOriginStatus, Error>(peer_origin_of(value)),
{
    Ok(
        PeerOriginStatus {
            origin_node_id: value.origin_node_id,
            acked_event_id: value.acked_event_id,
            applied_event_id: value.applied_event_id,
            unconfirmed_events: value.unconfirmed_events,
            cursor_updated_at: value.cursor_updated_at,
            remote_last_event_id: value.remote_last_event_id,
            pending_catchup: value.pending_catchup,
        },
    )
}

/// A peer's state: every field as reported, its origins converted in order.
pub open spec fn peer_matches(r: PeerStatus, w: wire::PeerStatus) -> bool {
    &&& r.node_id == w.node_id
    &&& r.configured_url == w.configured_url
    &&& r.source == w.source
    &&& r.discovered_url == w.discovered_url
    &&& r.discovery_state == w.discovery_state
    &&& r.last_discovered_at == w.last_discovered_at
    &&& r.last_connected_at == w.last_connected_at
    &&& r.last_discovery_error == w.last_discovery_error
    &&& r.connected == w.connected
    &&& r.session_direction == w.session_direction
    &&& r.origins@ == w.origins@.map_values(|o: wire::PeerOriginStatus| peer_origin_of(o))
    &&& r.pending_snapshot_partitions == w.pending_snapshot_partitions
    &&& r.remote_snapshot_version == w.remote_snapshot_version
    &&& r.remote_message_window_size == w.remote_message_window_size
    &&& r.clock_offset_ms == w.clock_offset_ms
    &&& r.last_clock_sync == w.last_clock_sync
    &&& r.snapshot_digests_sent_total == w.snapshot_digests_sent_total
    &&& r.snapshot_digests_received_total == w.snapshot_digests_received_total
    &&& r.snapshot_chunks_sent_total == w.snapshot_chunks_sent_total
    &&& r.snapshot_chunks_received_total == w.snapshot_chunks_received_total
    &&& r.last_snapshot_digest_at == w.last_snapshot_digest_at
    &&& r.last_snapshot_chunk_at == w.last_snapshot_chunk_at
}

fn peer_from_wire(w: wire::PeerStatus) -> (r: PeerStatus)
    ensures
        peer_matches(r, w),
{
    let ghost src = w.origins@;
    let mut origins: Vec<PeerOriginStatus> = Vec::new();
    for o in it: w.origins
        invariant
            src == it.seq(),
            origins@ == it.seq().take(it.index() as int).map_values(
                |o: wire::PeerOriginStatus| peer_origin_of(o),
            ),
    {
        let ghost cur = o;
        let converted = PeerOriginStatus {
            origin_node_id: o.origin_node_id,
            acked_event_id: o.acked_event_id,
            applied_event_id: o.applied_event_id,
            unconfirmed_events: o.unconfirmed_events,
            cursor_updated_at: o.cursor_updated_at,
            remote_last_event_id: o.remote_last_event_id,
            pending_catchup: o.pending_catchup,
        };
        origins.push(converted);
        assert(it.seq().take(it.index() as int + 1) =~= it.seq().take(it.index() as int).push(cur));
    }
    assert(src.take(src.len() as int) =~= src);
    PeerStatus {
        node_id: w.node_id,
        configured_url: w.configured_url,
        source: w.source,
        discovered_url: w.discovered_url,
        discovery_state: w.discovery_state,
        last_discovered_at: w.last_discovered_at,
        last_connected_at: w.last_connected_at,
        last_discovery_error: w.last_discovery_error,
        connected: w.connected,
        session_direction: w.session_direction,
        origins,
        pending_snapshot_partitions: w.pending_snapshot_partitions,
        remote_snapshot_version: w.remote_snapshot_version,
        remote_message_window_size: w.remote_message_window_size,
        clock_offset_ms: w.clock_offset_ms,
        last_clock_sync: w.last_clock_sync,
        snapshot_digests_sent_total: w.snapshot_digests_sent_total,
        snapshot_digests_received_total: w.snapshot_digests_received_total,
        snapshot_chunks_sent_total: w.snapshot_chunks_sent_total,
        snapshot_chunks_received_total: w.snapshot_chunks_received_total,
        last_snapshot_digest_at: w.last_snapshot_digest_at,
        last_snapshot_chunk_at: w.last_snapshot_chunk_at,
    }
}

/// The status of one peer, from the wire.
pub fn peer_status_from_proto(value: wire::PeerStatus) -> (r: Result<PeerStatus, Error>)
    ensures
        r matches Ok(p) && peer_matches(p, value),
{
    Ok(peer_from_wire(value))
}

/// A node's operational state as reported, with its peers converted in order
/// and absent counters read as zero.
pub open spec fn operations_status_matches(r: OperationsStatus, w: wire::OperationsStatus) -> bool {
    &&& r.node_id == w.node_id
    &&& r.message_window_size == w.message_window_size
    &&& r.last_event_sequence == w.last_event_sequence
    &&& r.write_gate_ready == w.write_gate_ready
    &&& r.conflict_total == w.conflict_total
    &&& message_trim_matches(r.message_trim, w.message_trim)
    &&& projection_matches(r.projection, w.projection)
    &&& r.peers@.len() == w.peers@.len()
    &&& forall|i: int| 0 <= i < w.peers@.len() ==> peer_matches(#[trigger] r.peers@[i], w.peers@[i])
    &&& match w.event_log_trim {
        Some(t) => r.event_log_trim == Some(event_log_trim_of(t)),
        None => r.event_log_trim is None,
    }
}

/// The operations status from the wire; it must be present.
pub fn operations_status_from_proto(value: Option<wire::OperationsStatus>) -> (r: Result<
    OperationsStatus,
    Error,
>)
    ensures
        match value {
            Some(w) => r matches Ok(s) && operations_status_matches(s, w),
            None => r matches Err(e) && is_protocol(e, "missing operations status"@),
        },
{
    let w = match value {
        Some(w) => w,
        None => {
            return Err(Error::protocol("missing operations status"));
        },
    };
    let ghost src = w.peers@;
    let mut peers: Vec<PeerStatus> = Vec::new();
    for p in it: w.peers
        invariant
            src == it.seq(),
            peers@.len() == it.index(),
            forall|i: int| 0 <= i < it.index() ==> peer_matches(#[trigger] peers@[i], src[i]),
    {
        peers.push(peer_from_wire(p));
    }
    let event_log_trim = match w.event_log_trim {
        Some(t) => Some(event_log_trim_status_from_proto(t)?),
        None => None,
    };
    Ok(
        OperationsStatus {
            node_id: w.node_id,
            message_window_size: w.message_window_size,
            last_event_sequence: w.last_event_sequence,
            write_gate_ready: w.write_gate_ready,
            conflict_total: w.conflict_total,
            message_trim: message_trim_status_from_proto(w.message_trim),
            projection: projection_status_from_proto(w.projection),
            peers,
            event_log_trim,
        },
    )
}

// ----- login -----

/// What goes wrong with a login response, if anything: its user is checked
/// first, then its session reference.
pub open spec fn login_problem(w: wire::LoginResponse) -> Option<Seq<char>> {
    if w.user is None {
        Some("missing user"@)
    } else {
        session_ref_problem(w.session_ref)
    }
}

/// The login outcome a valid login response stands for.
pub open spec fn login_info_of(w: wire::LoginResponse) -> LoginInfo {
    LoginInfo {
        user: user_of(w.user->0),
        protocol_version: w.protocol_version,
        session_ref: session_ref_of(w.session_ref->0),
    }
}

/// The login information of a login response.
pub fn login_info_from_proto(value: wire::LoginResponse) -> (r: Result<LoginInfo, Error>)
    ensures
        match login_problem(value) {
            Some(m) => r matches Err(e) && is_protocol(e, m),
            None => r == Ok::<LoginInfo, Error>(login_info_of(value)),
        },
{
    let user = user_from_proto(value.user)?;
    let session_ref = session_ref_from_proto(value.session_ref)?;
    Ok(LoginInfo { user, protocol_version: value.protocol_version, session_ref })
}

// ----- lists -----

/// Messages from the wire, in order; the first that fails fails the list.
pub fn messages_from_proto(items: Vec<wire::Message>) -> (r: Result<Vec<Message>, Error>)
    ensures
        r matches Ok(v) && v@ == items@.map_values(|m: wire::Message| message_of(m)),
{
    let ghost src = items@;
    let mut out: Vec<Message> = Vec::new();
    for item in it: items
        invariant
            src == it.seq(),
            out@ == it.seq().take(it.index() as int).map_values(|m: wire::Message| message_of(m)),
    {
        let ghost cur = item;
        out.push(message_from_wire(item));
        assert(it.seq().take(it.index() as int + 1) =~= it.seq().take(it.index() as int).push(cur));
    }
    assert(src.take(src.len() as int) =~= src);
    Ok(out)
}

/// The index of the first attachment whose type is unknown.
pub open spec fn first_unknown_type(items: Seq<wire::Attachment>, i: int) -> bool {
    &&& 0 <= i < items.len()
    &&& attachment_type_of_code(items[i].attachment_type) is None
    &&& forall|j: int| 0 <= j < i ==> (#[trigger] attachment_type_of_code(items[j].attachment_type)) is Some
}

/// Attachments from the wire, in order; the first that fails fails the list.
pub fn attachments_from_proto(items: Vec<wire::Attachment>) -> (r: Result<Vec<Attachment>, Error>)
    ensures
        (forall|j: int| 0 <= j < items@.len() ==> (#[trigger] attachment_type_of_code(items@[j].attachment_type)) is Some)
            ==> (r matches Ok(v) && v@ == items@.map_values(|a: wire::Attachment| attachment_of(a))),
        forall|i: int| #[trigger] first_unknown_type(items@, i) ==> (r matches Err(e) && is_protocol(
            e,
            unsupported_attachment_type(items@[i].attachment_type),
        )),
{
    let ghost src = items@;
    let mut out: Vec<Attachment> = Vec::new();
    for item in it: items
        invariant
            src == it.seq(),
            forall|j: int| 0 <= j < it.index() ==> (#[trigger] attachment_type_of_code(src[j].attachment_type)) is Some,
            out@ == it.seq().take(it.index() as int).map_values(|a: wire::Attachment| attachment_of(a)),
    {
        let ghost k = it.index() as int;
        let ghost cur = item;
        match attachment_from_wire(item) {
            Ok(a) => {
                out.push(a);
                assert(it.seq().take(k + 1) =~= it.seq().take(k).push(cur));
            },
            Err(e) => {
                proof {
                    assert forall|i: int| #[trigger] first_unknown_type(src, i) implies i == k by {
                        if i > k {
                            assert(attachment_type_of_code(src[k].attachment_type) is Some);
                        }
                    }
                }
                return Err(e);
            },
        }
    }
    assert(src.take(src.len() as int) =~= src);
    Ok(out)
}

/// Events from the wire, in order; the first that fails fails the list.
pub fn events_from_proto(items: Vec<wire::Event>) -> (r: Result<Vec<Event>, Error>)
    ensures
        r matches Ok(v) && v@ == items@.map_values(|e: wire::Event| event_of(e)),
{
    let ghost src = items@;
    let mut out: Vec<Event> = Vec::new();
    for item in it: items
        invariant
            src == it.seq(),
            out@ == it.seq().take(it.index() as int).map_values(|e: wire::Event| event_of(e)),
    {
        let ghost cur = item;
        out.push(event_from_wire(item));
        assert(it.seq().take(it.index() as int + 1) =~= it.seq().take(it.index() as int).push(cur));
    }
    assert(src.take(src.len() as int) =~= src);
    Ok(out)
}

/// Cluster nodes from the wire, in order; the first that fails fails the list.
pub fn cluster_nodes_from_proto(items: Vec<wire::ClusterNode>) -> (r: Result<Vec<ClusterNode>, Error>)
    ensures
        r matches Ok(v) && v@ == items@.map_values(|n: wire::ClusterNode| cluster_node_of(n)),
{
    let ghost src = items@;
    let mut out: Vec<ClusterNode> = Vec::new();
    for item in it: items
        invariant
            src == it.seq(),
            out@ == it.seq().take(it.index() as int).map_values(|n: wire::ClusterNode| cluster_node_of(n)),
    {
        let ghost cur = item;
        let n = cluster_node_from_proto(Some(item));
        match n {
            Ok(n) => out.push(n),
            Err(_) => {},
        }
        assert(it.seq().take(it.index() as int + 1) =~= it.seq().take(it.index() as int).push(cur));
    }
    assert(src.take(src.len() as int) =~= src);
    Ok(out)
}

/// Logged-in users from the wire, in order; the first that fails fails the list.
pub fn logged_in_users_from_proto(items: Vec<wire::LoggedInUser>) -> (r: Result<
    Vec<LoggedInUser>,
    Error,
>)
    ensures
        r matches Ok(v) && v@ == items@.map_values(|u: wire::LoggedInUser| logged_in_user_of(u)),
{
    let ghost src = items@;
    let mut out: Vec<LoggedInUser> = Vec::new();
    for item in it: items
        invariant
            src == it.seq(),
            out@ == it.seq().take(it.index() as int).map_values(|u: wire::LoggedInUser| logged_in_user_of(u)),
    {
        let ghost cur = item;
        let u = logged_in_user_from_proto(Some(item));
        match u {
            Ok(u) => out.push(u),
            Err(_) => {},
        }
        assert(it.seq().take(it.index() as int + 1) =~= it.seq().take(it.index() as int).push(cur));
    }
    assert(src.take(src.len() as int) =~= src);
    Ok(out)
}

// ----- what each conversion keeps -----

/// Wire numbers: delivery modes are 0 (unspecified), 1 (best effort) and 2
/// (route retry); attachment types are 1 (channel manager), 2 (channel
/// writer), 3 (channel subscription) and 4 (user blacklist), and 0 names no type.
pub proof fn law_wire_numbers()
    ensures
        delivery_mode_code(DeliveryMode::Unspecified) == 0,
        delivery_mode_code(DeliveryMode::BestEffort) == 1,
        delivery_mode_code(DeliveryMode::RouteRetry) == 2,
        delivery_mode_of_code(0) == DeliveryMode::Unspecified,
        delivery_mode_of_code(1) == DeliveryMode::BestEffort,
        delivery_mode_of_code(2) == DeliveryMode::RouteRetry,
        attachment_type_code(AttachmentType::ChannelManager) == 1,
        attachment_type_code(AttachmentType::ChannelWriter) == 2,
        attachment_type_code(AttachmentType::ChannelSubscription) == 3,
        attachment_type_code(AttachmentType::UserBlacklist) == 4,
        attachment_type_of_code(0) is None,
        attachment_type_of_code(1) == Some(AttachmentType::ChannelManager),
        attachment_type_of_code(2) == Some(AttachmentType::ChannelWriter),
        attachment_type_of_code(3) == Some(AttachmentType::ChannelSubscription),
        attachment_type_of_code(4) == Some(AttachmentType::UserBlacklist),
        forall|c: i32| c < 0 || c > 4 ==> #[trigger] attachment_type_of_code(c) is None,
        forall|c: i32| c != 1 && c != 2 ==> #[trigger] delivery_mode_of_code(c) == DeliveryMode::Unspecified,
{
}

/// A user or session reference read from the wire keeps its parts under their
/// own names; an absent user reference reads as 0:0.
pub proof fn law_reference_fields(u: wire::UserRef, s: wire::SessionRef)
    ensures
        user_ref_of(Some(u)).node_id == u.node_id,
        user_ref_of(Some(u)).user_id == u.user_id,
        user_ref_of(None).node_id == 0,
        user_ref_of(None).user_id == 0,
        user_ref_wire(user_ref_of(Some(u))).node_id == u.node_id,
        user_ref_wire(user_ref_of(Some(u))).user_id == u.user_id,
        session_ref_of(s).serving_node_id == s.serving_node_id,
        session_ref_of(s).session_id == s.session_id,
{
}

/// A user read from the wire keeps every field under its own name.
pub proof fn law_user_fields(w: wire::User)
    ensures
        user_of(w).node_id == w.node_id,
        user_of(w).user_id == w.user_id,
        user_of(w).username == w.username,
        user_of(w).role == w.role,
        user_of(w).profile_json == w.profile_json,
        user_of(w).system_reserved == w.system_reserved,
        user_of(w).created_at == w.created_at,
        user_of(w).updated_at == w.updated_at,
        user_of(w).origin_node_id == w.origin_node_id,
        user_of(w).login_name == w.login_name,
{
}

/// A metadata entry read from the wire keeps every field under its own name.
pub proof fn law_metadata_fields(w: wire::UserMetadata)
    ensures
        metadata_of(w).owner == user_ref_of(w.owner),
        metadata_of(w).key == w.key,
        metadata_of(w).value == w.value,
        metadata_of(w).updated_at == w.updated_at,
        metadata_of(w).deleted_at == w.deleted_at,
        metadata_of(w).expires_at == w.expires_at,
        metadata_of(w).origin_node_id == w.origin_node_id,
{
}

/// A message, packet or packet acceptance read from the wire keeps every field
/// under its own name.
pub proof fn law_message_and_packet_fields(m: wire::Message, p: wire::Packet, a: wire::TransientAccepted)
    ensures
        message_of(m).recipient == user_ref_of(m.recipient),
        message_of(m).node_id == m.node_id,
        message_of(m).seq == m.seq,
        message_of(m).sender == user_ref_of(m.sender),
        message_of(m).body == m.body,
        message_of(m).created_at_hlc == m.created_at_hlc,
        packet_of(p).packet_id == p.packet_id,
        packet_of(p).source_node_id == p.source_node_id,
        packet_of(p).target_node_id == p.target_node_id,
        packet_of(p).recipient == user_ref_of(p.recipient),
        packet_of(p).sender == user_ref_of(p.sender),
        packet_of(p).body == p.body,
        packet_of(p).delivery_mode == delivery_mode_of_code(p.delivery_mode),
        packet_of(p).target_session == optional_session_of(p.target_session),
        relay_accepted_of(a).packet_id == a.packet_id,
        relay_accepted_of(a).source_node_id == a.source_node_id,
        relay_accepted_of(a).target_node_id == a.target_node_id,
        relay_accepted_of(a).recipient == user_ref_of(a.recipient),
        relay_accepted_of(a).delivery_mode == delivery_mode_of_code(a.delivery_mode),
        relay_accepted_of(a).target_session == optional_session_of(a.target_session),
        optional_session_of(None) is None,
        forall|s: wire::SessionRef| #[trigger] optional_session_of(Some(s)) == Some(session_ref_of(s)),
{
}

/// Session resolution read from the wire keeps every field under its own name.
pub proof fn law_session_resolution_fields(p: wire::OnlineNodePresence, s: wire::ResolvedSession)
    ensures
        presence_of(p).serving_node_id == p.serving_node_id,
        presence_of(p).session_count == p.session_count,
        presence_of(p).transport_hint == p.transport_hint,
        s.session is Some ==> resolved_session_of(s).session == session_ref_of(s.session->0),
        resolved_session_of(s).transport == s.transport,
        resolved_session_of(s).transient_capable == s.transient_capable,
{
}

/// An attachment read from the wire keeps every field under its own name; a
/// subscription is the attachment read as subscriber (owner) and channel
/// (subject), a blacklist entry as owner and blocked user (subject).
pub proof fn law_attachment_fields(w: wire::Attachment, a: Attachment)
    ensures
        attachment_of(w).owner == user_ref_of(w.owner),
        attachment_of(w).subject == user_ref_of(w.subject),
        attachment_type_of_code(w.attachment_type) is Some ==> Some(attachment_of(w).attachment_type)
            == attachment_type_of_code(w.attachment_type),
        attachment_of(w).config_json == w.config_json,
        attachment_of(w).attached_at == w.attached_at,
        attachment_of(w).deleted_at == w.deleted_at,
        attachment_of(w).origin_node_id == w.origin_node_id,
        subscription_of(a).subscriber == a.owner,
        subscription_of(a).channel == a.subject,
        subscription_of(a).subscribed_at == a.attached_at,
        subscription_of(a).deleted_at == a.deleted_at,
        subscription_of(a).origin_node_id == a.origin_node_id,
        blacklist_entry_of(a).owner == a.owner,
        blacklist_entry_of(a).blocked == a.subject,
        blacklist_entry_of(a).blocked_at == a.attached_at,
        blacklist_entry_of(a).deleted_at == a.deleted_at,
        blacklist_entry_of(a).origin_node_id == a.origin_node_id,
{
}

/// An event read from the wire keeps every field under its own name.
pub proof fn law_event_fields(w: wire::Event)
    ensures
        event_of(w).sequence == w.sequence,
        event_of(w).event_id == w.event_id,
        event_of(w).event_type == w.event_type,
        event_of(w).aggregate == w.aggregate,
        event_of(w).aggregate_node_id == w.aggregate_node_id,
        event_of(w).aggregate_id == w.aggregate_id,
        event_of(w).hlc == w.hlc,
        event_of(w).origin_node_id == w.origin_node_id,
        event_of(w).event_json == w.event_json,
{
}

/// Cluster nodes and logged-in users read from the wire keep every field
/// under its own name.
pub proof fn law_node_and_login_fields(n: wire::ClusterNode, u: wire::LoggedInUser)
    ensures
        cluster_node_of(n).node_id == n.node_id,
        cluster_node_of(n).is_local == n.is_local,
        cluster_node_of(n).configured_url == n.configured_url,
        cluster_node_of(n).source == n.source,
        logged_in_user_of(u).node_id == u.node_id,
        logged_in_user_of(u).user_id == u.user_id,
        logged_in_user_of(u).username == u.username,
        logged_in_user_of(u).login_name == u.login_name,
{
}

/// The operations status read from the wire keeps every field under its own
/// name, down to each peer and origin; absent trimming and projection
/// statuses read as zero.
pub proof fn law_status_fields(
    w: wire::OperationsStatus,
    r: OperationsStatus,
    p: wire::PeerStatus,
    q: PeerStatus,
    o: wire::PeerOriginStatus,
    t: wire::EventLogTrimStatus,
)
    requires
        operations_status_matches(r, w),
        peer_matches(q, p),
    ensures
        r.node_id == w.node_id,
        r.message_window_size == w.message_window_size,
        r.last_event_sequence == w.last_event_sequence,
        r.write_gate_ready == w.write_gate_ready,
        r.conflict_total == w.conflict_total,
        w.message_trim matches Some(m) ==> r.message_trim.trimmed_total == m.trimmed_total
            && r.message_trim.last_trimmed_at == m.last_trimmed_at,
        w.message_trim is None ==> r.message_trim.trimmed_total == 0,
        w.projection matches Some(m) ==> r.projection.pending_total == m.pending_total
            && r.projection.last_failed_at == m.last_failed_at,
        w.projection is None ==> r.projection.pending_total == 0,
        r.peers@.len() == w.peers@.len(),
        w.event_log_trim is None ==> r.event_log_trim is None,
        w.event_log_trim matches Some(e) ==> r.event_log_trim == Some(event_log_trim_of(e)),
        event_log_trim_of(t).trimmed_total == t.trimmed_total,
        event_log_trim_of(t).last_trimmed_at == t.last_trimmed_at,
        q.node_id == p.node_id,
        q.configured_url == p.configured_url,
        q.source == p.source,
        q.discovered_url == p.discovered_url,
        q.discovery_state == p.discovery_state,
        q.last_discovered_at == p.last_discovered_at,
        q.last_connected_at == p.last_connected_at,
        q.last_discovery_error == p.last_discovery_error,
        q.connected == p.connected,
        q.session_direction == p.session_direction,
        q.origins@.len() == p.origins@.len(),
        q.pending_snapshot_partitions == p.pending_snapshot_partitions,
        q.remote_snapshot_version == p.remote_snapshot_version,
        q.remote_message_window_size == p.remote_message_window_size,
        q.clock_offset_ms == p.clock_offset_ms,
        q.last_clock_sync == p.last_clock_sync,
        q.snapshot_digests_sent_total == p.snapshot_digests_sent_total,
        q.snapshot_digests_received_total == p.snapshot_digests_received_total,
        q.snapshot_chunks_sent_total == p.snapshot_chunks_sent_total,
        q.snapshot_chunks_received_total == p.snapshot_chunks_received_total,
        q.last_snapshot_digest_at == p.last_snapshot_digest_at,
        q.last_snapshot_chunk_at == p.last_snapshot_chunk_at,
        peer_origin_of(o).origin_node_id == o.origin_node_id,
        peer_origin_of(o).acked_event_id == o.acked_event_id,
        peer_origin_of(o).applied_event_id == o.applied_event_id,
        peer_origin_of(o).unconfirmed_events == o.unconfirmed_events,
        peer_origin_of(o).cursor_updated_at == o.cursor_updated_at,
        peer_origin_of(o).remote_last_event_id == o.remote_last_event_id,
        peer_origin_of(o).pending_catchup == o.pending_catchup,
{
    assert(q.origins@.len() == p.origins@.len());
}

/// A login response read from the wire gives its user, protocol version and
/// session under their own names.
pub proof fn law_login_info_fields(w: wire::LoginResponse)
    requires
        w.user is Some,
        w.session_ref is Some,
    ensures
        login_info_of(w).user == user_of(w.user->0),
        login_info_of(w).protocol_version == w.protocol_version,
        login_info_of(w).session_ref == session_ref_of(w.session_ref->0),
{
}

} // verus!
