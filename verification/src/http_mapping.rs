//! Reading the HTTP API's JSON answers into the SDK's data types. Missing or
//! mistyped fields read leniently (zero, false, empty); byte fields are base64
//! text; attachment types are their names.

use vstd::prelude::*;

use base64::Engine;

use crate::errors::{is_protocol, Error};
use crate::json::{
    bool_of, bool_value, expect_object, field, get, get_either, get_either_value, get_member, i32_of,
    i32_value, int_of, int_value, json_get, list_of, member_value, opt_val, str_of, str_value, u64_of,
    u64_value, JsonMember, JsonValue,
};
use crate::text::{join2, join3, join4};
use crate::types::{
    Attachment, AttachmentType, BlacklistEntry, ClusterNode, DeleteUserResult, DeliveryMode, Event,
    EventLogTrimStatus, LoggedInUser, Message, MessageTrimStatus, OperationsStatus, PeerOriginStatus,
    PeerStatus, ProjectionStatus, RelayAccepted, Subscription, User, UserMetadata,
    UserMetadataScanResult, UserRef,
};

verus! {

// ----- outside readings -----

/// What `base64::engine::general_purpose::STANDARD.decode` gives for a text:
/// the bytes, or the decode error's message.
pub uninterp spec fn base64_decoded(text: Seq<char>) -> Result<Seq<u8>, Seq<char>>;

/// `STANDARD.decode(text)`, with the error as its message.
#[verifier::external_body]
fn base64_decode(text: &str) -> (r: Result<Vec<u8>, String>)
    ensures
        match r {
            Ok(b) => base64_decoded(text@) == Ok::<Seq<u8>, Seq<char>>(b@),
            Err(m) => base64_decoded(text@) == Err::<Seq<u8>, Seq<char>>(m@),
        },
{
    match base64::engine::general_purpose::STANDARD.decode(text) {
        Ok(b) => Ok(b),
        Err(e) => Err(e.to_string()),
    }
}

/// What `STANDARD.encode` gives for some bytes.
pub uninterp spec fn base64_encoded(bytes: Seq<u8>) -> Seq<char>;

/// `STANDARD.encode(bytes)`. It panics only when the encoded length overflows
/// `usize`, which the length bound rules out.
#[verifier::external_body]
pub(crate) fn base64_encode(bytes: &Vec<u8>) -> (r: String)
    requires
        bytes@.len() <= usize::MAX / 2,
    ensures
        r@ == base64_encoded(bytes@),
{
    base64::engine::general_purpose::STANDARD.encode(bytes)
}

/// How `{:?}` prints a text (quoted and escaped), as computed by std.
pub uninterp spec fn str_debug(s: Seq<char>) -> Seq<char>;

/// `format!("{:?}", s)`: std's `Debug` rendering of a text.
#[verifier::external_body]
fn str_debug_text(s: &str) -> (r: String)
    ensures
        r@ == str_debug(s@),
{
    format!("{:?}", s)
}

// ----- field readings -----

/// The bytes of a field that holds base64 text: absent or null reads as no
/// bytes; text is decoded; anything else is refused. The error names `name`.
pub open spec fn base64_field(v: Option<JsonValue>, name: Seq<char>) -> Result<Seq<u8>, Seq<char>> {
    match v {
        None => Ok(Seq::empty()),
        Some(JsonValue::Null) => Ok(Seq::empty()),
        Some(JsonValue::String(s)) => match base64_decoded(s@) {
            Ok(b) => Ok(b),
            Err(m) => Err("invalid base64 "@ + name + ": "@ + m),
        },
        _ => Err("invalid base64 "@ + name),
    }
}

/// The bytes a base64 field holds; absent or `null` is empty, anything else must be base64 text.
pub fn base64_to_bytes_field(value: Option<&JsonValue>, name: &str) -> (r: Result<Vec<u8>, Error>)
    ensures
        match base64_field(opt_val(value), name@) {
            Ok(b) => r matches Ok(x) && x@ == b,
            Err(m) => r matches Err(e) && is_protocol(e, m),
        },
{
    match value {
        None => Ok(Vec::new()),
        Some(JsonValue::Null) => Ok(Vec::new()),
        Some(JsonValue::String(s)) => match base64_decode(s.as_str()) {
            Ok(b) => Ok(b),
            Err(m) => {
                let msg = join4("invalid base64 ", name, ": ", m.as_str());
                Err(Error::protocol(msg.as_str()))
            },
        },
        _ => {
            let msg = join2("invalid base64 ", name);
            Err(Error::protocol(msg.as_str()))
        },
    }
}

/// A message body: base64 text under the name `body`.
pub fn base64_to_bytes(value: Option<&JsonValue>) -> (r: Result<Vec<u8>, Error>)
    ensures
        match base64_field(opt_val(value), "body"@) {
            Ok(b) => r matches Ok(x) && x@ == b,
            Err(m) => r matches Err(e) && is_protocol(e, m),
        },
{
    base64_to_bytes_field(value, "body")
}

/// The compact JSON text of a member; none for an absent member.
pub open spec fn member_json(m: Option<JsonMember>) -> Seq<u8> {
    match m {
        Some(m) => m.encoded@,
        None => Seq::empty(),
    }
}

/// A JSON member as raw JSON bytes: absent is empty, otherwise its compact JSON text.
pub fn json_value_to_bytes(member: Option<&JsonMember>) -> (r: Result<Vec<u8>, Error>)
    ensures
        r matches Ok(b) && b@ == member_json(match member {
            Some(m) => Some(*m),
            None => None,
        }),
{
    match member {
        Some(m) => Ok(crate::relay::clone_bytes(&m.encoded)),
        None => Ok(Vec::new()),
    }
}

/// The compact JSON text of an empty object, `{}`.
pub open spec fn empty_object_json() -> Seq<u8> {
    seq![123u8, 125u8]
}

/// A delivery mode read from its name; other values are unspecified.
pub open spec fn delivery_mode_of_name(v: Option<JsonValue>) -> DeliveryMode {
    match v {
        Some(JsonValue::String(s)) => if s@ == "best_effort"@ {
            DeliveryMode::BestEffort
        } else if s@ == "route_retry"@ {
            DeliveryMode::RouteRetry
        } else {
            DeliveryMode::Unspecified
        },
        _ => DeliveryMode::Unspecified,
    }
}

/// A delivery mode by name; an absent or unknown name is `Unspecified`.
pub fn delivery_mode_from_http(value: Option<&JsonValue>) -> (r: DeliveryMode)
    ensures
        r == delivery_mode_of_name(opt_val(value)),
{
    match value {
        Some(JsonValue::String(s)) => {
            if crate::text::text_eq(s.as_str(), "best_effort") {
                DeliveryMode::BestEffort
            } else if crate::text::text_eq(s.as_str(), "route_retry") {
                DeliveryMode::RouteRetry
            } else {
                DeliveryMode::Unspecified
            }
        },
        _ => DeliveryMode::Unspecified,
    }
}

/// An attachment type read from its name (the field read as text).
pub open spec fn attachment_type_of_name(name: Seq<char>) -> Option<AttachmentType> {
    if name == "channel_manager"@ {
        Some(AttachmentType::ChannelManager)
    } else if name == "channel_writer"@ {
        Some(AttachmentType::ChannelWriter)
    } else if name == "channel_subscription"@ {
        Some(AttachmentType::ChannelSubscription)
    } else if name == "user_blacklist"@ {
        Some(AttachmentType::UserBlacklist)
    } else {
        None
    }
}

/// An attachment type by name; an unknown name is a protocol error.
pub fn attachment_type_from_http(value: Option<&JsonValue>) -> (r: Result<AttachmentType, Error>)
    ensures
        match attachment_type_of_name(str_of(opt_val(value))) {
            Some(t) => r == Ok::<AttachmentType, Error>(t),
            None => r matches Err(e) && is_protocol(
                e,
                "unsupported attachment type "@ + str_debug(str_of(opt_val(value))),
            ),
        },
{
    let name = str_value(value);
    let n = name.as_str();
    if crate::text::text_eq(n, "channel_manager") {
        Ok(AttachmentType::ChannelManager)
    } else if crate::text::text_eq(n, "channel_writer") {
        Ok(AttachmentType::ChannelWriter)
    } else if crate::text::text_eq(n, "channel_subscription") {
        Ok(AttachmentType::ChannelSubscription)
    } else if crate::text::text_eq(n, "user_blacklist") {
        Ok(AttachmentType::UserBlacklist)
    } else {
        let d = str_debug_text(n);
        let msg = join2("unsupported attachment type ", d.as_str());
        Err(Error::protocol(msg.as_str()))
    }
}

/// Reading a type's name gives the type back.
pub proof fn law_attachment_type_name_round_trip(t: AttachmentType)
    ensures
        attachment_type_of_name(crate::types::attachment_type_name(t)) == Some(t),
{
    reveal_strlit("channel_manager");
    reveal_strlit("channel_writer");
    reveal_strlit("channel_subscription");
    reveal_strlit("user_blacklist");
    assert("channel_manager"@.len() == 15);
    assert("channel_writer"@.len() == 14);
    assert("channel_subscription"@.len() == 20);
    assert("user_blacklist"@.len() == 14);
    assert("user_blacklist"@[0] != "channel_writer"@[0]);
}

/// Reading a mode's name gives the mode back.
pub proof fn law_delivery_mode_name_round_trip(mode: DeliveryMode, s: String)
    requires
        s@ == crate::types::delivery_mode_name(mode),
    ensures
        delivery_mode_of_name(Some(JsonValue::String(s))) == mode,
{
    reveal_strlit("best_effort");
    reveal_strlit("route_retry");
    reveal_strlit("");
    assert("best_effort"@.len() == 11);
    assert(""@.len() == 0);
    assert("route_retry"@[0] != "best_effort"@[0]);
}

// ----- list outcomes -----

/// `i` is the first item with a problem.
pub open spec fn first_problem(ps: Seq<Option<Seq<char>>>, i: int) -> bool {
    &&& 0 <= i < ps.len()
    &&& ps[i] is Some
    &&& forall|j: int| 0 <= j < i ==> (#[trigger] ps[j]) is None
}

/// No item has a problem.
pub open spec fn no_problem(ps: Seq<Option<Seq<char>>>) -> bool {
    forall|i: int| 0 <= i < ps.len() ==> (#[trigger] ps[i]) is None
}

/// The outcome of converting a list whose items have problems `ps`: the
/// first problem is the error.
pub open spec fn list_failed<T>(r: Result<Vec<T>, Error>, ps: Seq<Option<Seq<char>>>) -> bool {
    forall|i: int| #[trigger] first_problem(ps, i) ==> (r matches Err(e) && is_protocol(e, ps[i]->0))
}

proof fn lemma_first_problem_at(ps: Seq<Option<Seq<char>>>, k: int)
    requires
        0 <= k < ps.len(),
        ps[k] is Some,
        forall|j: int| 0 <= j < k ==> (#[trigger] ps[j]) is None,
    ensures
        forall|i: int| #[trigger] first_problem(ps, i) ==> i == k,
{
    assert forall|i: int| #[trigger] first_problem(ps, i) implies i == k by {
        if i > k {
            assert(ps[k] is None);
        }
    }
}

// ----- records -----

/// A user reference read from an object field; anything else reads as `{0, 0}`.
pub open spec fn user_ref_json(v: Option<JsonValue>) -> UserRef {
    match v {
        Some(JsonValue::Object(m)) => UserRef {
            node_id: int_of(field(m@, "node_id"@)),
            user_id: int_of(member_value(get_either(m@, "user_id"@, "id"@))),
        },
        _ => UserRef { node_id: 0, user_id: 0 },
    }
}

/// A user reference; absent parts read as 0.
pub fn user_ref_from_http(value: Option<&JsonValue>) -> (r: UserRef)
    ensures
        r == user_ref_json(opt_val(value)),
{
    match value {
        Some(JsonValue::Object(m)) => UserRef {
            node_id: int_value(get(m, "node_id")),
            user_id: int_value(get_either_value(m, "user_id", "id")),
        },
        _ => UserRef { node_id: 0, user_id: 0 },
    }
}

/// A user read from an object's members.
pub open spec fn user_json(u: User, m: Seq<JsonMember>) -> bool {
    &&& u.node_id == int_of(field(m, "node_id"@))
    &&& u.user_id == int_of(member_value(get_either(m, "user_id"@, "id"@)))
    &&& u.username@ == str_of(field(m, "username"@))
    &&& u.role@ == str_of(field(m, "role"@))
    &&& u.profile_json@ == member_json(get_either(m, "profile"@, "profile_json"@))
    &&& u.system_reserved == bool_of(field(m, "system_reserved"@))
    &&& u.created_at@ == str_of(field(m, "created_at"@))
    &&& u.updated_at@ == str_of(field(m, "updated_at"@))
    &&& u.origin_node_id == int_of(field(m, "origin_node_id"@))
    &&& u.login_name@ == str_of(field(m, "login_name"@))
}

/// A user record of the HTTP API.
pub fn user_from_http(value: &Vec<JsonMember>) -> (r: Result<User, Error>)
    ensures
        r matches Ok(u) && user_json(u, value@),
{
    let profile = match get_member(value, "profile") {
        Some(p) => Some(p),
        None => get_member(value, "profile_json"),
    };
    let profile_json = json_value_to_bytes(profile)?;
    Ok(
        User {
            node_id: int_value(get(value, "node_id")),
            user_id: int_value(get_either_value(value, "user_id", "id")),
            username: str_value(get(value, "username")),
            role: str_value(get(value, "role")),
            profile_json,
            system_reserved: bool_value(get(value, "system_reserved")),
            created_at: str_value(get(value, "created_at")),
            updated_at: str_value(get(value, "updated_at")),
            origin_node_id: int_value(get(value, "origin_node_id")),
            login_name: str_value(get(value, "login_name")),
        },
    )
}

/// What is wrong with a metadata object: its value must be base64 text.
pub open spec fn metadata_problem(m: Seq<JsonMember>) -> Option<Seq<char>> {
    match base64_field(field(m, "value"@), "value"@) {
        Ok(_) => None,
        Err(msg) => Some(msg),
    }
}

/// A metadata entry read from an object's members.
pub open spec fn metadata_json(x: UserMetadata, m: Seq<JsonMember>) -> bool {
    &&& x.owner == user_ref_json(field(m, "owner"@))
    &&& x.key@ == str_of(field(m, "key"@))
    &&& base64_field(field(m, "value"@), "value"@) == Ok::<Seq<u8>, Seq<char>>(x.value@)
    &&& x.updated_at@ == str_of(field(m, "updated_at"@))
    &&& x.deleted_at@ == str_of(field(m, "deleted_at"@))
    &&& x.expires_at@ == str_of(field(m, "expires_at"@))
    &&& x.origin_node_id == int_of(field(m, "origin_node_id"@))
}

/// A metadata entry of the HTTP API.
pub fn user_metadata_from_http(value: &Vec<JsonMember>) -> (r: Result<UserMetadata, Error>)
    ensures
        match metadata_problem(value@) {
            Some(msg) => r matches Err(e) && is_protocol(e, msg),
            None => r matches Ok(x) && metadata_json(x, value@),
        },
{
    let v = base64_to_bytes_field(get(value, "value"), "value")?;
    Ok(
        UserMetadata {
            owner: user_ref_from_http(get(value, "owner")),
            key: str_value(get(value, "key")),
            value: v,
            updated_at: str_value(get(value, "updated_at")),
            deleted_at: str_value(get(value, "deleted_at")),
            expires_at: str_value(get(value, "expires_at")),
            origin_node_id: int_value(get(value, "origin_node_id")),
        },
    )
}

/// What is wrong with a list item that should be a metadata object.
pub open spec fn metadata_item_problem(v: JsonValue) -> Option<Seq<char>> {
    match v {
        JsonValue::Object(m) => metadata_problem(m@),
        _ => Some("unexpected JSON object"@),
    }
}

/// The problems of a list of metadata items.
pub open spec fn metadata_problems(items: Seq<JsonValue>) -> Seq<Option<Seq<char>>> {
    items.map_values(|v: JsonValue| metadata_item_problem(v))
}

/// A metadata entry read from a list item.
pub open spec fn metadata_item(x: UserMetadata, v: JsonValue) -> bool {
    v matches JsonValue::Object(m) && metadata_json(x, m@)
}

fn metadata_items(items: &Vec<JsonValue>) -> (r: Result<Vec<UserMetadata>, Error>)
    ensures
        no_problem(metadata_problems(items@)) ==> (r matches Ok(out)
            && out@.len() == items@.len() && forall|i: int| 0 <= i < items@.len() ==> metadata_item(
            #[trigger] out@[i],
            items@[i],
        )),
        list_failed(r, metadata_problems(items@)),
{
    let ghost ps = metadata_problems(items@);
    let mut out: Vec<UserMetadata> = Vec::new();
    let mut i: usize = 0;
    while i < items.len()
        invariant
            i <= items@.len(),
            ps == metadata_problems(items@),
            out@.len() == i,
            forall|j: int| 0 <= j < i ==> (#[trigger] ps[j]) is None,
            forall|j: int| 0 <= j < i ==> metadata_item(#[trigger] out@[j], items@[j]),
        decreases items@.len() - i,
    {
        let item = &items[i];
        let m = match expect_object(item) {
            Ok(m) => m,
            Err(e) => {
                proof {
                    lemma_first_problem_at(ps, i as int);
                }
                return Err(e);
            },
        };
        match user_metadata_from_http(m) {
            Ok(x) => {
                out.push(x);
            },
            Err(e) => {
                proof {
                    lemma_first_problem_at(ps, i as int);
                }
                return Err(e);
            },
        }
        i = i + 1;
    }
    Ok(out)
}

/// The item count a scan reports: the `count` field when present, else the
/// number of items (at most `i32::MAX`).
pub open spec fn scan_count(m: Seq<JsonMember>, n: nat) -> i32 {
    if json_get(m, "count"@) is Some {
        i32_of(field(m, "count"@))
    } else if n <= i32::MAX {
        n as i32
    } else {
        i32::MAX
    }
}

/// A scan read from an object's members: its `items` must be an array of
/// metadata objects; the count and continuation key come along.
pub open spec fn scan_result_matches(value: Seq<JsonMember>, r: Result<UserMetadataScanResult, Error>) -> bool {
        match field(value, "items"@) {
            Some(JsonValue::Array(items)) => {
                &&& no_problem(metadata_problems(items@)) ==> (r matches Ok(s) && {
                    &&& s.items@.len() == items@.len()
                    &&& forall|i: int| 0 <= i < items@.len() ==> metadata_item(#[trigger] s.items@[i], items@[i])
                    &&& s.count == scan_count(value, items@.len())
                    &&& s.next_after@ == str_of(field(value, "next_after"@))
                })
                &&& forall|i: int| #[trigger] first_problem(metadata_problems(items@), i)
                    ==> (r matches Err(e) && is_protocol(e, metadata_item_problem(items@[i])->0))
            },
            _ => r matches Err(e) && is_protocol(e, "missing items in scan_user_metadata response"@),
        }
}

/// A page of metadata entries; the count defaults to the number of items.
pub fn user_metadata_scan_result_from_http(value: &Vec<JsonMember>) -> (r: Result<
    UserMetadataScanResult,
    Error,
>)
    ensures
        scan_result_matches(value@, r),
{
    let items = match get(value, "items") {
        Some(JsonValue::Array(items)) => items,
        _ => {
            return Err(Error::protocol("missing items in scan_user_metadata response"));
        },
    };
    let converted = metadata_items(items)?;
    let count = match get(value, "count") {
        Some(c) => i32_value(Some(c)),
        None => {
            if items.len() <= 2147483647usize {
                items.len() as i32
            } else {
                2147483647i32
            }
        },
    };
    Ok(
        UserMetadataScanResult {
            items: converted,
            count,
            next_after: str_value(get(value, "next_after")),
        },
    )
}

/// The creation time a message reads: `created_at_hlc`, or `created_at` when that is empty.
pub open spec fn message_time(m: Seq<JsonMember>) -> Seq<char> {
    if str_of(field(m, "created_at_hlc"@)).len() > 0 {
        str_of(field(m, "created_at_hlc"@))
    } else {
        str_of(field(m, "created_at"@))
    }
}

/// What is wrong with a message object: its body must be base64 text.
pub open spec fn message_problem(m: Seq<JsonMember>) -> Option<Seq<char>> {
    match base64_field(field(m, "body"@), "body"@) {
        Ok(_) => None,
        Err(msg) => Some(msg),
    }
}

/// A message read from an object's members.
pub open spec fn message_json(x: Message, m: Seq<JsonMember>) -> bool {
    &&& x.recipient == user_ref_json(field(m, "recipient"@))
    &&& x.node_id == int_of(field(m, "node_id"@))
    &&& x.seq == int_of(field(m, "seq"@))
    &&& x.sender == user_ref_json(field(m, "sender"@))
    &&& base64_field(field(m, "body"@), "body"@) == Ok::<Seq<u8>, Seq<char>>(x.body@)
    &&& x.created_at_hlc@ == message_time(m)
}

/// A message of the HTTP API.
pub fn message_from_http(value: &Vec<JsonMember>) -> (r: Result<Message, Error>)
    ensures
        match message_problem(value@) {
            Some(msg) => r matches Err(e) && is_protocol(e, msg),
            None => r matches Ok(x) && message_json(x, value@),
        },
{
    let hlc = str_value(get(value, "created_at_hlc"));
    let created_at_hlc = if hlc.unicode_len() == 0 {
        str_value(get(value, "created_at"))
    } else {
        hlc
    };
    let body = base64_to_bytes(get(value, "body"))?;
    Ok(
        Message {
            recipient: user_ref_from_http(get(value, "recipient")),
            node_id: int_value(get(value, "node_id")),
            seq: int_value(get(value, "seq")),
            sender: user_ref_from_http(get(value, "sender")),
            body,
            created_at_hlc,
        },
    )
}

/// An acceptance read from an object's members; the HTTP API names no session.
pub open spec fn relay_accepted_json(x: RelayAccepted, m: Seq<JsonMember>) -> bool {
    &&& x.packet_id == u64_of(field(m, "packet_id"@))
    &&& x.source_node_id == int_of(field(m, "source_node_id"@))
    &&& x.target_node_id == int_of(field(m, "target_node_id"@))
    &&& x.recipient == user_ref_json(field(m, "recipient"@))
    &&& x.delivery_mode == delivery_mode_of_name(field(m, "delivery_mode"@))
    &&& x.target_session is None
}

/// The acceptance of a transient packet.
pub fn relay_accepted_from_http(value: &Vec<JsonMember>) -> (r: Result<RelayAccepted, Error>)
    ensures
        r matches Ok(x) && relay_accepted_json(x, value@),
{
    Ok(
        RelayAccepted {
            packet_id: u64_value(get(value, "packet_id")),
            source_node_id: int_value(get(value, "source_node_id")),
            target_node_id: int_value(get(value, "target_node_id")),
            recipient: user_ref_from_http(get(value, "recipient")),
            delivery_mode: delivery_mode_from_http(get(value, "delivery_mode")),
            target_session: None,
        },
    )
}

/// What is wrong with an attachment object: its type must be a known name.
pub open spec fn attachment_problem(m: Seq<JsonMember>) -> Option<Seq<char>> {
    match attachment_type_of_name(str_of(field(m, "attachment_type"@))) {
        Some(_) => None,
        None => Some("unsupported attachment type "@ + str_debug(str_of(field(m, "attachment_type"@)))),
    }
}

/// An attachment read from an object's members; a missing configuration reads as `{}`.
pub open spec fn attachment_json(x: Attachment, m: Seq<JsonMember>) -> bool {
    &&& x.owner == user_ref_json(field(m, "owner"@))
    &&& x.subject == user_ref_json(field(m, "subject"@))
    &&& Some(x.attachment_type) == attachment_type_of_name(str_of(field(m, "attachment_type"@)))
    &&& x.config_json@ == if json_get(m, "config_json"@) is Some {
        member_json(json_get(m, "config_json"@))
    } else {
        empty_object_json()
    }
    &&& x.attached_at@ == str_of(field(m, "attached_at"@))
    &&& x.deleted_at@ == str_of(field(m, "deleted_at"@))
    &&& x.origin_node_id == int_of(field(m, "origin_node_id"@))
}

/// An attachment of the HTTP API.
pub fn attachment_from_http(value: &Vec<JsonMember>) -> (r: Result<Attachment, Error>)
    ensures
        match attachment_problem(value@) {
            Some(msg) => r matches Err(e) && is_protocol(e, msg),
            None => r matches Ok(x) && attachment_json(x, value@),
        },
{
    let config_json = match get_member(value, "config_json") {
        Some(m) => json_value_to_bytes(Some(m))?,
        None => crate::requests::empty_config(),
    };
    let attachment_type = attachment_type_from_http(get(value, "attachment_type"))?;
    Ok(
        Attachment {
            owner: user_ref_from_http(get(value, "owner")),
            subject: user_ref_from_http(get(value, "subject")),
            attachment_type,
            config_json,
            attached_at: str_value(get(value, "attached_at")),
            deleted_at: str_value(get(value, "deleted_at")),
            origin_node_id: int_value(get(value, "origin_node_id")),
        },
    )
}

/// A subscription, read as the attachment it is.
pub fn subscription_from_http(value: &Vec<JsonMember>) -> (r: Result<Subscription, Error>)
    ensures
        match attachment_problem(value@) {
            Some(msg) => r matches Err(e) && is_protocol(e, msg),
            None => r matches Ok(x) && exists|a: Attachment| attachment_json(a, value@) && x
                == crate::mapping::subscription_of(a),
        },
{
    let a = attachment_from_http(value)?;
    Ok(crate::mapping::subscription_from_attachment(&a))
}

/// A blacklist entry, read as the attachment it is.
pub fn blacklist_entry_from_http(value: &Vec<JsonMember>) -> (r: Result<BlacklistEntry, Error>)
    ensures
        match attachment_problem(value@) {
            Some(msg) => r matches Err(e) && is_protocol(e, msg),
            None => r matches Ok(x) && exists|a: Attachment| attachment_json(a, value@) && x
                == crate::mapping::blacklist_entry_of(a),
        },
{
    let a = attachment_from_http(value)?;
    Ok(crate::mapping::blacklist_entry_from_attachment(&a))
}

/// An event read from an object's members.
pub open spec fn event_json(x: Event, m: Seq<JsonMember>) -> bool {
    &&& x.sequence == int_of(field(m, "sequence"@))
    &&& x.event_id == int_of(field(m, "event_id"@))
    &&& x.event_type@ == str_of(field(m, "event_type"@))
    &&& x.aggregate@ == str_of(field(m, "aggregate"@))
    &&& x.aggregate_node_id == int_of(field(m, "aggregate_node_id"@))
    &&& x.aggregate_id == int_of(field(m, "aggregate_id"@))
    &&& x.hlc@ == str_of(field(m, "hlc"@))
    &&& x.origin_node_id == int_of(field(m, "origin_node_id"@))
    &&& x.event_json@ == member_json(get_either(m, "event"@, "event_json"@))
}

/// An event of the event log.
pub fn event_from_http(value: &Vec<JsonMember>) -> (r: Result<Event, Error>)
    ensures
        r matches Ok(x) && event_json(x, value@),
{
    let event = match get_member(value, "event") {
        Some(e) => Some(e),
        None => get_member(value, "event_json"),
    };
    let event_json = json_value_to_bytes(event)?;
    Ok(
        Event {
            sequence: int_value(get(value, "sequence")),
            event_id: int_value(get(value, "event_id")),
            event_type: str_value(get(value, "event_type")),
            aggregate: str_value(get(value, "aggregate")),
            aggregate_node_id: int_value(get(value, "aggregate_node_id")),
            aggregate_id: int_value(get(value, "aggregate_id")),
            hlc: str_value(get(value, "hlc")),
            origin_node_id: int_value(get(value, "origin_node_id")),
            event_json,
        },
    )
}

/// A cluster node read from an object's members.
pub open spec fn cluster_node_json(x: ClusterNode, m: Seq<JsonMember>) -> bool {
    &&& x.node_id == int_of(field(m, "node_id"@))
    &&& x.is_local == bool_of(field(m, "is_local"@))
    &&& x.configured_url@ == str_of(field(m, "configured_url"@))
    &&& x.source@ == str_of(field(m, "source"@))
}

/// A node of the cluster.
pub fn cluster_node_from_http(value: &Vec<JsonMember>) -> (r: Result<ClusterNode, Error>)
    ensures
        r matches Ok(x) && cluster_node_json(x, value@),
{
    Ok(
        ClusterNode {
            node_id: int_value(get(value, "node_id")),
            is_local: bool_value(get(value, "is_local")),
            configured_url: str_value(get(value, "configured_url")),
            source: str_value(get(value, "source")),
        },
    )
}

/// A logged-in user read from an object's members.
pub open spec fn logged_in_user_json(x: LoggedInUser, m: Seq<JsonMember>) -> bool {
    &&& x.node_id == int_of(field(m, "node_id"@))
    &&& x.user_id == int_of(field(m, "user_id"@))
    &&& x.username@ == str_of(field(m, "username"@))
    &&& x.login_name@ == str_of(field(m, "login_name"@))
}

/// A user logged in on a node.
pub fn logged_in_user_from_http(value: &Vec<JsonMember>) -> (r: Result<LoggedInUser, Error>)
    ensures
        r matches Ok(x) && logged_in_user_json(x, value@),
{
    Ok(
        LoggedInUser {
            node_id: int_value(get(value, "node_id")),
            user_id: int_value(get(value, "user_id")),
            username: str_value(get(value, "username")),
            login_name: str_value(get(value, "login_name")),
        },
    )
}

/// The outcome of deleting a user: its status, and the user from the `user`
/// object when there is one, else from the top level.
pub open spec fn delete_user_result_json(x: DeleteUserResult, m: Seq<JsonMember>) -> bool {
    &&& x.status@ == str_of(field(m, "status"@))
    &&& x.user == match field(m, "user"@) {
        Some(JsonValue::Object(inner)) => user_ref_json(Some(JsonValue::Object(inner))),
        _ => UserRef {
            node_id: int_of(field(m, "node_id"@)),
            user_id: int_of(member_value(get_either(m, "user_id"@, "id"@))),
        },
    }
}

/// The result of deleting a user.
pub fn delete_user_result_from_http(value: &Vec<JsonMember>) -> (r: Result<DeleteUserResult, Error>)
    ensures
        r matches Ok(x) && delete_user_result_json(x, value@),
{
    let user = match get(value, "user") {
        Some(JsonValue::Object(inner)) => UserRef {
            node_id: int_value(get(inner, "node_id")),
            user_id: int_value(get_either_value(inner, "user_id", "id")),
        },
        _ => UserRef {
            node_id: int_value(get(value, "node_id")),
            user_id: int_value(get_either_value(value, "user_id", "id")),
        },
    };
    Ok(DeleteUserResult { status: str_value(get(value, "status")), user })
}

// ----- operations status -----

/// Trim counters read from an object field; anything else reads as zero.
pub open spec fn message_trim_json(x: MessageTrimStatus, v: Option<JsonValue>) -> bool {
    match v {
        Some(JsonValue::Object(m)) => x.trimmed_total == int_of(field(m@, "trimmed_total"@))
            && x.last_trimmed_at@ == str_of(field(m@, "last_trimmed_at"@)),
        _ => x.trimmed_total == 0 && x.last_trimmed_at@.len() == 0,
    }
}

/// The message trimming counters; absent ones read as 0.
pub fn message_trim_status_from_http(value: Option<&JsonValue>) -> (r: MessageTrimStatus)
    ensures
        message_trim_json(r, opt_val(value)),
{
    match value {
        Some(JsonValue::Object(m)) => MessageTrimStatus {
            trimmed_total: int_value(get(m, "trimmed_total")),
            last_trimmed_at: str_value(get(m, "last_trimmed_at")),
        },
        _ => MessageTrimStatus { trimmed_total: 0, last_trimmed_at: String::new() },
    }
}

/// Event-log trim counters read from an object's members.
pub open spec fn event_log_trim_json(x: EventLogTrimStatus, m: Seq<JsonMember>) -> bool {
    x.trimmed_total == int_of(field(m, "trimmed_total"@)) && x.last_trimmed_at@ == str_of(
        field(m, "last_trimmed_at"@),
    )
}

/// The event log trimming status.
pub fn event_log_trim_status_from_http(value: &Vec<JsonMember>) -> (r: Result<EventLogTrimStatus, Error>)
    ensures
        r matches Ok(x) && event_log_trim_json(x, value@),
{
    Ok(
        EventLogTrimStatus {
            trimmed_total: int_value(get(value, "trimmed_total")),
            last_trimmed_at: str_value(get(value, "last_trimmed_at")),
        },
    )
}

/// Projection counters read from an object field; anything else reads as zero.
pub open spec fn projection_json(x: ProjectionStatus, v: Option<JsonValue>) -> bool {
    match v {
        Some(JsonValue::Object(m)) => x.pending_total == int_of(field(m@, "pending_total"@))
            && x.last_failed_at@ == str_of(field(m@, "last_failed_at"@)),
        _ => x.pending_total == 0 && x.last_failed_at@.len() == 0,
    }
}

/// The projection status; absent fields read as defaults.
pub fn projection_status_from_http(value: Option<&JsonValue>) -> (r: ProjectionStatus)
    ensures
        projection_json(r, opt_val(value)),
{
    match value {
        Some(JsonValue::Object(m)) => ProjectionStatus {
            pending_total: int_value(get(m, "pending_total")),
            last_failed_at: str_value(get(m, "last_failed_at")),
        },
        _ => ProjectionStatus { pending_total: 0, last_failed_at: String::new() },
    }
}

/// A peer's per-origin state read from an object's members.
pub open spec fn peer_origin_json(x: PeerOriginStatus, m: Seq<JsonMember>) -> bool {
    &&& x.origin_node_id == int_of(field(m, "origin_node_id"@))
    &&& x.acked_event_id == int_of(field(m, "acked_event_id"@))
    &&& x.applied_event_id == int_of(field(m, "applied_event_id"@))
    &&& x.unconfirmed_events == int_of(field(m, "unconfirmed_events"@))
    &&& x.cursor_updated_at@ == str_of(field(m, "cursor_updated_at"@))
    &&& x.remote_last_event_id == u64_of(field(m, "remote_last_event_id"@))
    &&& x.pending_catchup == bool_of(field(m, "pending_catchup"@))
}

/// What a peer knows of one origin node.
pub fn peer_origin_status_from_http(value: &Vec<JsonMember>) -> (r: Result<PeerOriginStatus, Error>)
    ensures
        r matches Ok(x) && peer_origin_json(x, value@),
{
    Ok(
        PeerOriginStatus {
            origin_node_id: int_value(get(value, "origin_node_id")),
            acked_event_id: int_value(get(value, "acked_event_id")),
            applied_event_id: int_value(get(value, "applied_event_id")),
            unconfirmed_events: int_value(get(value, "unconfirmed_events")),
            cursor_updated_at: str_value(get(value, "cursor_updated_at")),
            remote_last_event_id: u64_value(get(value, "remote_last_event_id")),
            pending_catchup: bool_value(get(value, "pending_catchup")),
        },
    )
}

/// Whether a value is an object.
pub open spec fn is_object(v: JsonValue) -> bool {
    v is Object
}

/// Whether a list item is an object.
pub open spec fn object_problem(v: JsonValue) -> Option<Seq<char>> {
    match v {
        JsonValue::Object(_) => None,
        _ => Some("unexpected JSON object"@),
    }
}

/// The problems of a list whose items must be objects.
pub open spec fn object_problems(items: Seq<JsonValue>) -> Seq<Option<Seq<char>>> {
    items.map_values(|v: JsonValue| object_problem(v))
}

/// A peer's origin read from a list item.
pub open spec fn peer_origin_item(x: PeerOriginStatus, v: JsonValue) -> bool {
    v matches JsonValue::Object(m) && peer_origin_json(x, m@)
}

/// What is wrong with a peer object: its origins must be objects.
pub open spec fn peer_problem(m: Seq<JsonMember>) -> Option<Seq<char>> {
    if no_problem(object_problems(list_of(field(m, "origins"@)))) {
        None
    } else {
        Some("unexpected JSON object"@)
    }
}

/// A peer read from an object's members.
pub open spec fn peer_json(x: PeerStatus, m: Seq<JsonMember>) -> bool {
    &&& x.node_id == int_of(field(m, "node_id"@))
    &&& x.configured_url@ == str_of(field(m, "configured_url"@))
    &&& x.source@ == str_of(field(m, "source"@))
    &&& x.discovered_url@ == str_of(field(m, "discovered_url"@))
    &&& x.discovery_state@ == str_of(field(m, "discovery_state"@))
    &&& x.last_discovered_at@ == str_of(field(m, "last_discovered_at"@))
    &&& x.last_connected_at@ == str_of(field(m, "last_connected_at"@))
    &&& x.last_discovery_error@ == str_of(field(m, "last_discovery_error"@))
    &&& x.connected == bool_of(field(m, "connected"@))
    &&& x.session_direction@ == str_of(field(m, "session_direction"@))
    &&& x.origins@.len() == list_of(field(m, "origins"@)).len()
    &&& forall|i: int| 0 <= i < x.origins@.len() ==> peer_origin_item(
        #[trigger] x.origins@[i],
        list_of(field(m, "origins"@))[i],
    )
    &&& x.pending_snapshot_partitions == i32_of(field(m, "pending_snapshot_partitions"@))
    &&& x.remote_snapshot_version@ == str_of(field(m, "remote_snapshot_version"@))
    &&& x.remote_message_window_size == i32_of(field(m, "remote_message_window_size"@))
    &&& x.clock_offset_ms == int_of(field(m, "clock_offset_ms"@))
    &&& x.last_clock_sync@ == str_of(field(m, "last_clock_sync"@))
    &&& x.snapshot_digests_sent_total == u64_of(field(m, "snapshot_digests_sent_total"@))
    &&& x.snapshot_digests_received_total == u64_of(field(m, "snapshot_digests_received_total"@))
    &&& x.snapshot_chunks_sent_total == u64_of(field(m, "snapshot_chunks_sent_total"@))
    &&& x.snapshot_chunks_received_total == u64_of(field(m, "snapshot_chunks_received_total"@))
    &&& x.last_snapshot_digest_at@ == str_of(field(m, "last_snapshot_digest_at"@))
    &&& x.last_snapshot_chunk_at@ == str_of(field(m, "last_snapshot_chunk_at"@))
}

/// The elements of an array field; anything else gives none.
pub fn list_values(value: Option<&JsonValue>) -> (r: Vec<&JsonValue>)
    ensures
        r@.len() == list_of(opt_val(value)).len(),
        forall|i: int| 0 <= i < r@.len() ==> *(#[trigger] r@[i]) == list_of(opt_val(value))[i],
{
    let mut out: Vec<&JsonValue> = Vec::new();
    match value {
        Some(JsonValue::Array(items)) => {
            let mut i: usize = 0;
            while i < items.len()
                invariant
                    i <= items@.len(),
                    out@.len() == i,
                    forall|j: int| 0 <= j < i ==> *(#[trigger] out@[j]) == items@[j],
                decreases items@.len() - i,
            {
                out.push(&items[i]);
                i = i + 1;
            }
        },
        _ => {},
    }
    out
}

fn origins_from_http(items: &Vec<&JsonValue>) -> (r: Result<Vec<PeerOriginStatus>, Error>)
    ensures
        match r {
            Ok(out) => {
                &&& out@.len() == items@.len()
                &&& forall|i: int| 0 <= i < items@.len() ==> peer_origin_item(#[trigger] out@[i], *items@[i])
                &&& forall|i: int| 0 <= i < items@.len() ==> is_object(*(#[trigger] items@[i]))
            },
            Err(e) => is_protocol(e, "unexpected JSON object"@) && exists|i: int| 0 <= i < items@.len()
                && !is_object(*(#[trigger] items@[i])),
        },
{
    let mut out: Vec<PeerOriginStatus> = Vec::new();
    let mut i: usize = 0;
    while i < items.len()
        invariant
            i <= items@.len(),
            out@.len() == i,
            forall|j: int| 0 <= j < i ==> is_object(*(#[trigger] items@[j])),
            forall|j: int| 0 <= j < i ==> peer_origin_item(#[trigger] out@[j], *items@[j]),
        decreases items@.len() - i,
    {
        let m = expect_object(items[i])?;
        let x = peer_origin_status_from_http(m)?;
        out.push(x);
        i = i + 1;
    }
    Ok(out)
}

/// The status of one peer.
pub fn peer_status_from_http(value: &Vec<JsonMember>) -> (r: Result<PeerStatus, Error>)
    ensures
        match peer_problem(value@) {
            Some(msg) => r matches Err(e) && is_protocol(e, msg),
            None => r matches Ok(x) && peer_json(x, value@),
        },
{
    let listed = list_values(get(value, "origins"));
    let origins = match origins_from_http(&listed) {
        Ok(o) => o,
        Err(e) => {
            proof {
                let items = list_of(field(value@, "origins"@));
                let i = choose|i: int| 0 <= i < listed@.len() && !is_object(*(#[trigger] listed@[i]));
                assert(object_problems(items)[i] is Some);
                assert(!no_problem(object_problems(items)));
            }
            return Err(e);
        },
    };
    proof {
        let items = list_of(field(value@, "origins"@));
        assert forall|i: int| 0 <= i < object_problems(items).len() implies (#[trigger] object_problems(items)[i]) is None by {
            assert(is_object(*listed@[i]));
        }
    }
    Ok(
        PeerStatus {
            node_id: int_value(get(value, "node_id")),
            configured_url: str_value(get(value, "configured_url")),
            source: str_value(get(value, "source")),
            discovered_url: str_value(get(value, "discovered_url")),
            discovery_state: str_value(get(value, "discovery_state")),
            last_discovered_at: str_value(get(value, "last_discovered_at")),
            last_connected_at: str_value(get(value, "last_connected_at")),
            last_discovery_error: str_value(get(value, "last_discovery_error")),
            connected: bool_value(get(value, "connected")),
            session_direction: str_value(get(value, "session_direction")),
            origins,
            pending_snapshot_partitions: i32_value(get(value, "pending_snapshot_partitions")),
            remote_snapshot_version: str_value(get(value, "remote_snapshot_version")),
            remote_message_window_size: i32_value(get(value, "remote_message_window_size")),
            clock_offset_ms: int_value(get(value, "clock_offset_ms")),
            last_clock_sync: str_value(get(value, "last_clock_sync")),
            snapshot_digests_sent_total: u64_value(get(value, "snapshot_digests_sent_total")),
            snapshot_digests_received_total: u64_value(get(value, "snapshot_digests_received_total")),
            snapshot_chunks_sent_total: u64_value(get(value, "snapshot_chunks_sent_total")),
            snapshot_chunks_received_total: u64_value(get(value, "snapshot_chunks_received_total")),
            last_snapshot_digest_at: str_value(get(value, "last_snapshot_digest_at")),
            last_snapshot_chunk_at: str_value(get(value, "last_snapshot_chunk_at")),
        },
    )
}

/// What is wrong with a peer list item.
pub open spec fn peer_item_problem(v: JsonValue) -> Option<Seq<char>> {
    match v {
        JsonValue::Object(m) => peer_problem(m@),
        _ => Some("unexpected JSON object"@),
    }
}

/// The problems of a list of peers.
pub open spec fn peer_problems(items: Seq<JsonValue>) -> Seq<Option<Seq<char>>> {
    items.map_values(|v: JsonValue| peer_item_problem(v))
}

/// A peer read from a list item.
pub open spec fn peer_item(x: PeerStatus, v: JsonValue) -> bool {
    v matches JsonValue::Object(m) && peer_json(x, m@)
}

/// What is wrong with an operations status: every peer must read.
pub open spec fn operations_status_problem(m: Seq<JsonMember>) -> Option<Seq<char>> {
    if no_problem(peer_problems(list_of(field(m, "peers"@)))) {
        None
    } else {
        Some("unexpected JSON object"@)
    }
}

/// A node's operational state read from an object's members.
pub open spec fn operations_status_json(x: OperationsStatus, m: Seq<JsonMember>) -> bool {
    &&& x.node_id == int_of(field(m, "node_id"@))
    &&& x.message_window_size == i32_of(field(m, "message_window_size"@))
    &&& x.last_event_sequence == int_of(field(m, "last_event_sequence"@))
    &&& x.write_gate_ready == bool_of(field(m, "write_gate_ready"@))
    &&& x.conflict_total == int_of(field(m, "conflict_total"@))
    &&& message_trim_json(x.message_trim, field(m, "message_trim"@))
    &&& projection_json(x.projection, field(m, "projection"@))
    &&& x.peers@.len() == list_of(field(m, "peers"@)).len()
    &&& forall|i: int| 0 <= i < x.peers@.len() ==> peer_item(#[trigger] x.peers@[i], list_of(field(m, "peers"@))[i])
    &&& match field(m, "event_log_trim"@) {
        Some(JsonValue::Object(t)) => x.event_log_trim matches Some(e) && event_log_trim_json(e, t@),
        _ => x.event_log_trim is None,
    }
}

/// The operations status of a node.
pub fn operations_status_from_http(value: &Vec<JsonMember>) -> (r: Result<OperationsStatus, Error>)
    ensures
        match operations_status_problem(value@) {
            Some(msg) => r matches Err(e) && is_protocol(e, msg),
            None => r matches Ok(x) && operations_status_json(x, value@),
        },
{
    let listed = list_values(get(value, "peers"));
    let ghost items = list_of(field(value@, "peers"@));
    let mut peers: Vec<PeerStatus> = Vec::new();
    let mut i: usize = 0;
    while i < listed.len()
        invariant
            i <= listed@.len(),
            items == list_of(field(value@, "peers"@)),
            listed@.len() == items.len(),
            forall|j: int| 0 <= j < listed@.len() ==> *(#[trigger] listed@[j]) == items[j],
            peers@.len() == i,
            forall|j: int| 0 <= j < i ==> (#[trigger] peer_problems(items)[j]) is None,
            forall|j: int| 0 <= j < i ==> peer_item(#[trigger] peers@[j], items[j]),
        decreases listed@.len() - i,
    {
        let m = match expect_object(listed[i]) {
            Ok(m) => m,
            Err(e) => {
                proof {
                    assert(peer_problems(items)[i as int] is Some);
                    assert(!no_problem(peer_problems(items)));
                }
                return Err(e);
            },
        };
        let p = match peer_status_from_http(m) {
            Ok(p) => p,
            Err(e) => {
                proof {
                    assert(peer_problems(items)[i as int] is Some);
                    assert(!no_problem(peer_problems(items)));
                }
                return Err(e);
            },
        };
        peers.push(p);
        i = i + 1;
    }
    let event_log_trim = match get(value, "event_log_trim") {
        Some(JsonValue::Object(t)) => Some(event_log_trim_status_from_http(t)?),
        _ => None,
    };
    Ok(
        OperationsStatus {
            node_id: int_value(get(value, "node_id")),
            message_window_size: i32_value(get(value, "message_window_size")),
            last_event_sequence: int_value(get(value, "last_event_sequence")),
            write_gate_ready: bool_value(get(value, "write_gate_ready")),
            conflict_total: int_value(get(value, "conflict_total")),
            message_trim: message_trim_status_from_http(get(value, "message_trim")),
            projection: projection_status_from_http(get(value, "projection")),
            peers,
            event_log_trim,
        },
    )
}

// ----- lists -----

/// User read from a list item.
pub open spec fn user_item(x: User, v: JsonValue) -> bool {
    v matches JsonValue::Object(m) && user_json(x, m@)
}

/// Message read from a list item.
pub open spec fn message_item(x: Message, v: JsonValue) -> bool {
    v matches JsonValue::Object(m) && message_json(x, m@)
}

/// Attachment read from a list item.
pub open spec fn attachment_item(x: Attachment, v: JsonValue) -> bool {
    v matches JsonValue::Object(m) && attachment_json(x, m@)
}

/// Event read from a list item.
pub open spec fn event_item(x: Event, v: JsonValue) -> bool {
    v matches JsonValue::Object(m) && event_json(x, m@)
}

/// ClusterNode read from a list item.
pub open spec fn cluster_node_item(x: ClusterNode, v: JsonValue) -> bool {
    v matches JsonValue::Object(m) && cluster_node_json(x, m@)
}

/// LoggedInUser read from a list item.
pub open spec fn logged_in_user_item(x: LoggedInUser, v: JsonValue) -> bool {
    v matches JsonValue::Object(m) && logged_in_user_json(x, m@)
}

/// What is wrong with a message list item.
pub open spec fn message_item_problem(v: JsonValue) -> Option<Seq<char>> {
    match v {
        JsonValue::Object(m) => message_problem(m@),
        _ => Some("unexpected JSON object"@),
    }
}

/// The problems of a list of messages.
pub open spec fn message_problems(items: Seq<JsonValue>) -> Seq<Option<Seq<char>>> {
    items.map_values(|v: JsonValue| message_item_problem(v))
}

/// What is wrong with an attachment list item.
pub open spec fn attachment_item_problem(v: JsonValue) -> Option<Seq<char>> {
    match v {
        JsonValue::Object(m) => attachment_problem(m@),
        _ => Some("unexpected JSON object"@),
    }
}

/// The problems of a list of attachments.
pub open spec fn attachment_problems(items: Seq<JsonValue>) -> Seq<Option<Seq<char>>> {
    items.map_values(|v: JsonValue| attachment_item_problem(v))
}

/// Reads every item of a list as User; the first item that does not read is the error.
pub fn users_from_http(items: &Vec<JsonValue>) -> (r: Result<Vec<User>, Error>)
    ensures
        no_problem(object_problems(items@)) ==> (r matches Ok(out) && out@.len() == items@.len() && forall|i: int|
            0 <= i < items@.len() ==> user_item(#[trigger] out@[i], items@[i])),
        list_failed(r, object_problems(items@)),
{
    let ghost ps = object_problems(items@);
    let mut out: Vec<User> = Vec::new();
    let mut i: usize = 0;
    while i < items.len()
        invariant
            i <= items@.len(),
            ps == object_problems(items@),
            out@.len() == i,
            forall|j: int| 0 <= j < i ==> (#[trigger] ps[j]) is None,
            forall|j: int| 0 <= j < i ==> user_item(#[trigger] out@[j], items@[j]),
        decreases items@.len() - i,
    {
        let m = match expect_object(&items[i]) {
            Ok(m) => m,
            Err(e) => {
                proof {
                    lemma_first_problem_at(ps, i as int);
                }
                return Err(e);
            },
        };
        match user_from_http(m) {
            Ok(x) => {
                out.push(x);
            },
            Err(e) => {
                proof {
                    lemma_first_problem_at(ps, i as int);
                }
                return Err(e);
            },
        }
        i = i + 1;
    }
    Ok(out)
}

/// Reads every item of a list as Message; the first item that does not read is the error.
pub fn messages_from_http(items: &Vec<JsonValue>) -> (r: Result<Vec<Message>, Error>)
    ensures
        no_problem(message_problems(items@)) ==> (r matches Ok(out) && out@.len() == items@.len() && forall|i: int|
            0 <= i < items@.len() ==> message_item(#[trigger] out@[i], items@[i])),
        list_failed(r, message_problems(items@)),
{
    let ghost ps = message_problems(items@);
    let mut out: Vec<Message> = Vec::new();
    let mut i: usize = 0;
    while i < items.len()
        invariant
            i <= items@.len(),
            ps == message_problems(items@),
            out@.len() == i,
            forall|j: int| 0 <= j < i ==> (#[trigger] ps[j]) is None,
            forall|j: int| 0 <= j < i ==> message_item(#[trigger] out@[j], items@[j]),
        decreases items@.len() - i,
    {
        let m = match expect_object(&items[i]) {
            Ok(m) => m,
            Err(e) => {
                proof {
                    lemma_first_problem_at(ps, i as int);
                }
                return Err(e);
            },
        };
        match message_from_http(m) {
            Ok(x) => {
                out.push(x);
            },
            Err(e) => {
                proof {
                    lemma_first_problem_at(ps, i as int);
                }
                return Err(e);
            },
        }
        i = i + 1;
    }
    Ok(out)
}

/// Reads every item of a list as Attachment; the first item that does not read is the error.
pub fn attachments_from_http(items: &Vec<JsonValue>) -> (r: Result<Vec<Attachment>, Error>)
    ensures
        no_problem(attachment_problems(items@)) ==> (r matches Ok(out) && out@.len() == items@.len() && forall|i: int|
            0 <= i < items@.len() ==> attachment_item(#[trigger] out@[i], items@[i])),
        list_failed(r, attachment_problems(items@)),
{
    let ghost ps = attachment_problems(items@);
    let mut out: Vec<Attachment> = Vec::new();
    let mut i: usize = 0;
    while i < items.len()
        invariant
            i <= items@.len(),
            ps == attachment_problems(items@),
            out@.len() == i,
            forall|j: int| 0 <= j < i ==> (#[trigger] ps[j]) is None,
            forall|j: int| 0 <= j < i ==> attachment_item(#[trigger] out@[j], items@[j]),
        decreases items@.len() - i,
    {
        let m = match expect_object(&items[i]) {
            Ok(m) => m,
            Err(e) => {
                proof {
                    lemma_first_problem_at(ps, i as int);
                }
                return Err(e);
            },
        };
        match attachment_from_http(m) {
            Ok(x) => {
                out.push(x);
            },
            Err(e) => {
                proof {
                    lemma_first_problem_at(ps, i as int);
                }
                return Err(e);
            },
        }
        i = i + 1;
    }
    Ok(out)
}

/// Reads every item of a list as Event; the first item that does not read is the error.
pub fn events_from_http(items: &Vec<JsonValue>) -> (r: Result<Vec<Event>, Error>)
    ensures
        no_problem(object_problems(items@)) ==> (r matches Ok(out) && out@.len() == items@.len() && forall|i: int|
            0 <= i < items@.len() ==> event_item(#[trigger] out@[i], items@[i])),
        list_failed(r, object_problems(items@)),
{
    let ghost ps = object_problems(items@);
    let mut out: Vec<Event> = Vec::new();
    let mut i: usize = 0;
    while i < items.len()
        invariant
            i <= items@.len(),
            ps == object_problems(items@),
            out@.len() == i,
            forall|j: int| 0 <= j < i ==> (#[trigger] ps[j]) is None,
            forall|j: int| 0 <= j < i ==> event_item(#[trigger] out@[j], items@[j]),
        decreases items@.len() - i,
    {
        let m = match expect_object(&items[i]) {
            Ok(m) => m,
            Err(e) => {
                proof {
                    lemma_first_problem_at(ps, i as int);
                }
                return Err(e);
            },
        };
        match event_from_http(m) {
            Ok(x) => {
                out.push(x);
            },
            Err(e) => {
                proof {
                    lemma_first_problem_at(ps, i as int);
                }
                return Err(e);
            },
        }
        i = i + 1;
    }
    Ok(out)
}

/// Reads every item of a list as ClusterNode; the first item that does not read is the error.
pub fn cluster_nodes_from_http(items: &Vec<JsonValue>) -> (r: Result<Vec<ClusterNode>, Error>)
    ensures
        no_problem(object_problems(items@)) ==> (r matches Ok(out) && out@.len() == items@.len() && forall|i: int|
            0 <= i < items@.len() ==> cluster_node_item(#[trigger] out@[i], items@[i])),
        list_failed(r, object_problems(items@)),
{
    let ghost ps = object_problems(items@);
    let mut out: Vec<ClusterNode> = Vec::new();
    let mut i: usize = 0;
    while i < items.len()
        invariant
            i <= items@.len(),
            ps == object_problems(items@),
            out@.len() == i,
            forall|j: int| 0 <= j < i ==> (#[trigger] ps[j]) is None,
            forall|j: int| 0 <= j < i ==> cluster_node_item(#[trigger] out@[j], items@[j]),
        decreases items@.len() - i,
    {
        let m = match expect_object(&items[i]) {
            Ok(m) => m,
            Err(e) => {
                proof {
                    lemma_first_problem_at(ps, i as int);
                }
                return Err(e);
            },
        };
        match cluster_node_from_http(m) {
            Ok(x) => {
                out.push(x);
            },
            Err(e) => {
                proof {
                    lemma_first_problem_at(ps, i as int);
                }
                return Err(e);
            },
        }
        i = i + 1;
    }
    Ok(out)
}

/// Reads every item of a list as LoggedInUser; the first item that does not read is the error.
pub fn logged_in_users_from_http(items: &Vec<JsonValue>) -> (r: Result<Vec<LoggedInUser>, Error>)
    ensures
        no_problem(object_problems(items@)) ==> (r matches Ok(out) && out@.len() == items@.len() && forall|i: int|
            0 <= i < items@.len() ==> logged_in_user_item(#[trigger] out@[i], items@[i])),
        list_failed(r, object_problems(items@)),
{
    let ghost ps = object_problems(items@);
    let mut out: Vec<LoggedInUser> = Vec::new();
    let mut i: usize = 0;
    while i < items.len()
        invariant
            i <= items@.len(),
            ps == object_problems(items@),
            out@.len() == i,
            forall|j: int| 0 <= j < i ==> (#[trigger] ps[j]) is None,
            forall|j: int| 0 <= j < i ==> logged_in_user_item(#[trigger] out@[j], items@[j]),
        decreases items@.len() - i,
    {
        let m = match expect_object(&items[i]) {
            Ok(m) => m,
            Err(e) => {
                proof {
                    lemma_first_problem_at(ps, i as int);
                }
                return Err(e);
            },
        };
        match logged_in_user_from_http(m) {
            Ok(x) => {
                out.push(x);
            },
            Err(e) => {
                proof {
                    lemma_first_problem_at(ps, i as int);
                }
                return Err(e);
            },
        }
        i = i + 1;
    }
    Ok(out)
}

// ----- what each reader keeps -----

/// The names read back: `channel_manager`, `channel_writer`,
/// `channel_subscription` and `user_blacklist` name the attachment types of
/// those names; `best_effort` and `route_retry` name those delivery modes.
pub proof fn law_names_read_back()
    ensures
        attachment_type_of_name("channel_manager"@) == Some(AttachmentType::ChannelManager),
        attachment_type_of_name("channel_writer"@) == Some(AttachmentType::ChannelWriter),
        attachment_type_of_name("channel_subscription"@) == Some(AttachmentType::ChannelSubscription),
        attachment_type_of_name("user_blacklist"@) == Some(AttachmentType::UserBlacklist),
        attachment_type_of_name(""@) is None,
        forall|s: String| s@ == "best_effort"@ ==> #[trigger] delivery_mode_of_name(Some(JsonValue::String(s)))
            == DeliveryMode::BestEffort,
        forall|s: String| s@ == "route_retry"@ ==> #[trigger] delivery_mode_of_name(Some(JsonValue::String(s)))
            == DeliveryMode::RouteRetry,
        delivery_mode_of_name(None) == DeliveryMode::Unspecified,
{
    reveal_strlit("channel_manager");
    reveal_strlit("channel_writer");
    reveal_strlit("channel_subscription");
    reveal_strlit("user_blacklist");
    reveal_strlit("best_effort");
    reveal_strlit("route_retry");
    reveal_strlit("");
    assert("channel_manager"@.len() == 15);
    assert("channel_writer"@.len() == 14);
    assert("channel_subscription"@.len() == 20);
    assert("user_blacklist"@.len() == 14);
    assert("channel_writer"@[8] != "user_blacklist"@[8]);
    assert("route_retry"@[0] != "best_effort"@[0]);
}

/// A user reference read from JSON takes `node_id`, and `user_id` (or `id`);
/// anything but an object reads as 0:0.
pub proof fn law_user_ref_json_fields(v: Option<JsonValue>)
    ensures
        v matches Some(JsonValue::Object(m)) ==> user_ref_json(v).node_id == int_of(field(m@, "node_id"@))
            && user_ref_json(v).user_id == int_of(member_value(get_either(m@, "user_id"@, "id"@))),
        !(v matches Some(JsonValue::Object(_))) ==> user_ref_json(v).node_id == 0 && user_ref_json(v).user_id
            == 0,
{
}

/// A user read from JSON takes each field from the member of the same name
/// (`user_id` falling back to `id`, `profile` to `profile_json`).
pub proof fn law_user_json_fields(u: User, m: Seq<JsonMember>)
    requires
        user_json(u, m),
    ensures
        u.node_id == int_of(field(m, "node_id"@)),
        u.user_id == int_of(member_value(get_either(m, "user_id"@, "id"@))),
        u.username@ == str_of(field(m, "username"@)),
        u.role@ == str_of(field(m, "role"@)),
        u.profile_json@ == member_json(get_either(m, "profile"@, "profile_json"@)),
        u.system_reserved == bool_of(field(m, "system_reserved"@)),
        u.created_at@ == str_of(field(m, "created_at"@)),
        u.updated_at@ == str_of(field(m, "updated_at"@)),
        u.origin_node_id == int_of(field(m, "origin_node_id"@)),
        u.login_name@ == str_of(field(m, "login_name"@)),
{
}

/// A metadata entry read from JSON takes each field from the member of the
/// same name; `value` is base64.
pub proof fn law_metadata_json_fields(x: UserMetadata, m: Seq<JsonMember>)
    requires
        metadata_json(x, m),
    ensures
        x.owner == user_ref_json(field(m, "owner"@)),
        x.key@ == str_of(field(m, "key"@)),
        base64_field(field(m, "value"@), "value"@) == Ok::<Seq<u8>, Seq<char>>(x.value@),
        x.updated_at@ == str_of(field(m, "updated_at"@)),
        x.deleted_at@ == str_of(field(m, "deleted_at"@)),
        x.expires_at@ == str_of(field(m, "expires_at"@)),
        x.origin_node_id == int_of(field(m, "origin_node_id"@)),
{
}

/// A message read from JSON takes each field from the member of the same
/// name; `body` is base64 and the time is `created_at_hlc`, else `created_at`.
pub proof fn law_message_json_fields(x: Message, m: Seq<JsonMember>)
    requires
        message_json(x, m),
    ensures
        x.recipient == user_ref_json(field(m, "recipient"@)),
        x.node_id == int_of(field(m, "node_id"@)),
        x.seq == int_of(field(m, "seq"@)),
        x.sender == user_ref_json(field(m, "sender"@)),
        base64_field(field(m, "body"@), "body"@) == Ok::<Seq<u8>, Seq<char>>(x.body@),
        str_of(field(m, "created_at_hlc"@)).len() > 0 ==> x.created_at_hlc@ == str_of(field(m, "created_at_hlc"@)),
        str_of(field(m, "created_at_hlc"@)).len() == 0 ==> x.created_at_hlc@ == str_of(field(m, "created_at"@)),
{
}

/// A packet acceptance read from JSON takes each field from the member of the
/// same name.
pub proof fn law_relay_accepted_json_fields(x: RelayAccepted, m: Seq<JsonMember>)
    requires
        relay_accepted_json(x, m),
    ensures
        x.packet_id == u64_of(field(m, "packet_id"@)),
        x.source_node_id == int_of(field(m, "source_node_id"@)),
        x.target_node_id == int_of(field(m, "target_node_id"@)),
        x.recipient == user_ref_json(field(m, "recipient"@)),
        x.delivery_mode == delivery_mode_of_name(field(m, "delivery_mode"@)),
        x.target_session is None,
{
}

/// An attachment read from JSON takes each field from the member of the same
/// name; a missing `config_json` reads as `{}`.
pub proof fn law_attachment_json_fields(x: Attachment, m: Seq<JsonMember>)
    requires
        attachment_json(x, m),
    ensures
        x.owner == user_ref_json(field(m, "owner"@)),
        x.subject == user_ref_json(field(m, "subject"@)),
        attachment_type_of_name(str_of(field(m, "attachment_type"@))) == Some(x.attachment_type),
        json_get(m, "config_json"@) is Some ==> x.config_json@ == member_json(json_get(m, "config_json"@)),
        json_get(m, "config_json"@) is None ==> x.config_json@ == seq![123u8, 125u8],
        x.attached_at@ == str_of(field(m, "attached_at"@)),
        x.deleted_at@ == str_of(field(m, "deleted_at"@)),
        x.origin_node_id == int_of(field(m, "origin_node_id"@)),
{
}

/// An event read from JSON takes each field from the member of the same name
/// (`event` falling back to `event_json`).
pub proof fn law_event_json_fields(x: Event, m: Seq<JsonMember>)
    requires
        event_json(x, m),
    ensures
        x.sequence == int_of(field(m, "sequence"@)),
        x.event_id == int_of(field(m, "event_id"@)),
        x.event_type@ == str_of(field(m, "event_type"@)),
        x.aggregate@ == str_of(field(m, "aggregate"@)),
        x.aggregate_node_id == int_of(field(m, "aggregate_node_id"@)),
        x.aggregate_id == int_of(field(m, "aggregate_id"@)),
        x.hlc@ == str_of(field(m, "hlc"@)),
        x.origin_node_id == int_of(field(m, "origin_node_id"@)),
        x.event_json@ == member_json(get_either(m, "event"@, "event_json"@)),
{
}

/// Cluster nodes, logged-in users and deletion results read from JSON take
/// each field from the member of the same name.
pub proof fn law_node_login_delete_json_fields(
    n: ClusterNode,
    u: LoggedInUser,
    d: DeleteUserResult,
    m: Seq<JsonMember>,
)
    ensures
        cluster_node_json(n, m) ==> n.node_id == int_of(field(m, "node_id"@)) && n.is_local == bool_of(
            field(m, "is_local"@),
        ) && n.configured_url@ == str_of(field(m, "configured_url"@)) && n.source@ == str_of(
            field(m, "source"@),
        ),
        logged_in_user_json(u, m) ==> u.node_id == int_of(field(m, "node_id"@)) && u.user_id == int_of(
            field(m, "user_id"@),
        ) && u.username@ == str_of(field(m, "username"@)) && u.login_name@ == str_of(
            field(m, "login_name"@),
        ),
        delete_user_result_json(d, m) ==> d.status@ == str_of(field(m, "status"@)),
        delete_user_result_json(d, m) && (field(m, "user"@) matches Some(JsonValue::Object(_))) ==> d.user
            == user_ref_json(field(m, "user"@)),
        delete_user_result_json(d, m) && !(field(m, "user"@) matches Some(JsonValue::Object(_))) ==> d.user.node_id
            == int_of(field(m, "node_id"@)) && d.user.user_id == int_of(
            member_value(get_either(m, "user_id"@, "id"@)),
        ),
{
}

/// Status records read from JSON take each field from the member of the same
/// name; an absent trimming or projection object reads as zero.
pub proof fn law_status_json_fields(
    s: OperationsStatus,
    p: PeerStatus,
    o: PeerOriginStatus,
    t: EventLogTrimStatus,
    m: Seq<JsonMember>,
)
    ensures
        operations_status_json(s, m) ==> s.node_id == int_of(field(m, "node_id"@)) && s.message_window_size
            == i32_of(field(m, "message_window_size"@)) && s.last_event_sequence == int_of(
            field(m, "last_event_sequence"@),
        ) && s.write_gate_ready == bool_of(field(m, "write_gate_ready"@)) && s.conflict_total == int_of(
            field(m, "conflict_total"@),
        ) && s.peers@.len() == list_of(field(m, "peers"@)).len(),
        operations_status_json(s, m) && !(field(m, "message_trim"@) matches Some(JsonValue::Object(_)))
            ==> s.message_trim.trimmed_total == 0,
        operations_status_json(s, m) && !(field(m, "projection"@) matches Some(JsonValue::Object(_)))
            ==> s.projection.pending_total == 0,
        event_log_trim_json(t, m) ==> t.trimmed_total == int_of(field(m, "trimmed_total"@))
            && t.last_trimmed_at@ == str_of(field(m, "last_trimmed_at"@)),
        peer_origin_json(o, m) ==> o.origin_node_id == int_of(field(m, "origin_node_id"@)) && o.acked_event_id
            == int_of(field(m, "acked_event_id"@)) && o.applied_event_id == int_of(
            field(m, "applied_event_id"@),
        ) && o.unconfirmed_events == int_of(field(m, "unconfirmed_events"@)) && o.cursor_updated_at@
            == str_of(field(m, "cursor_updated_at"@)) && o.remote_last_event_id == u64_of(
            field(m, "remote_last_event_id"@),
        ) && o.pending_catchup == bool_of(field(m, "pending_catchup"@)),
        peer_json(p, m) ==> p.node_id == int_of(field(m, "node_id"@)) && p.configured_url@ == str_of(
            field(m, "configured_url"@),
        ) && p.source@ == str_of(field(m, "source"@)) && p.discovered_url@ == str_of(
            field(m, "discovered_url"@),
        ) && p.discovery_state@ == str_of(field(m, "discovery_state"@)) && p.last_discovered_at@
            == str_of(field(m, "last_discovered_at"@)) && p.last_connected_at@ == str_of(
            field(m, "last_connected_at"@),
        ) && p.last_discovery_error@ == str_of(field(m, "last_discovery_error"@)) && p.connected
            == bool_of(field(m, "connected"@)) && p.session_direction@ == str_of(
            field(m, "session_direction"@),
        ) && p.origins@.len() == list_of(field(m, "origins"@)).len() && p.pending_snapshot_partitions
            == i32_of(field(m, "pending_snapshot_partitions"@)) && p.remote_snapshot_version@ == str_of(
            field(m, "remote_snapshot_version"@),
        ) && p.remote_message_window_size == i32_of(field(m, "remote_message_window_size"@))
            && p.clock_offset_ms == int_of(field(m, "clock_offset_ms"@)) && p.last_clock_sync@ == str_of(
            field(m, "last_clock_sync"@),
        ) && p.snapshot_digests_sent_total == u64_of(field(m, "snapshot_digests_sent_total"@))
            && p.snapshot_digests_received_total == u64_of(field(m, "snapshot_digests_received_total"@))
            && p.snapshot_chunks_sent_total == u64_of(field(m, "snapshot_chunks_sent_total"@))
            && p.snapshot_chunks_received_total == u64_of(field(m, "snapshot_chunks_received_total"@))
            && p.last_snapshot_digest_at@ == str_of(field(m, "last_snapshot_digest_at"@))
            && p.last_snapshot_chunk_at@ == str_of(field(m, "last_snapshot_chunk_at"@)),
{
}

} // verus!
