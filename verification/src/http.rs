//! The HTTP API: for each operation, its parameter checks and the request it
//! sends (method, path, JSON body, accepted statuses), and how the answer is
//! read. The transport sends the request and hands back the status and text.

use vstd::prelude::*;

use crate::errors::{is_protocol, is_validation, Error, ServerError};
use crate::http_mapping::base64_encode;
use crate::json::{expect_object, field, get, str_of, JsonMember, JsonValue};
use crate::password::PasswordInput;
use crate::text::{decimal_int, i64_to_decimal, join2, join3, join4, trim_spec, trim_text};
use crate::types::{
    ClusterNode, Event, LoggedInUser, Attachment, DeleteUserResult, Message, OperationsStatus, RelayAccepted, User, UserMetadata,
    UserMetadataScanResult, AttachmentType, CreateUserRequest, DeliveryMode, ListUsersRequest, ScanUserMetadataRequest, UpdateUserRequest,
    UpsertUserMetadataRequest, UserRef,
};
use crate::validation::{normalize_login_name, validate_login_name, validate_positive_i64};

verus! {

/// An HTTP method.
#[derive(Clone, Copy, Debug, PartialEq, Eq, Structural)]
pub enum HttpMethod {
    Get,
    Post,
    Put,
    Patch,
    Delete,
}

/// A member value of a request body.
#[derive(Debug)]
pub enum BodyValue {
    /// A JSON string.
    Text(String),
    /// A JSON integer.
    Int(i64),
    /// A JSON document given as its text, known to parse.
    Json(Vec<u8>),
    /// `{}`.
    EmptyObject,
}

/// A request to send.
#[derive(Debug)]
pub struct HttpRequest {
    pub method: HttpMethod,
    /// The path after the base URL, with its query.
    pub path: String,
    /// The bearer token; empty for none.
    pub token: String,
    /// The JSON object sent as body, member by member.
    pub body: Option<Vec<(String, BodyValue)>>,
    /// The statuses that mean success.
    pub statuses: Vec<u16>,
}

/// The error code for an HTTP status without a code of its own.
pub open spec fn status_code_name(status: u16) -> Seq<char> {
    if status == 400 {
        "bad_request"@
    } else if status == 401 {
        "unauthorized"@
    } else if status == 403 {
        "forbidden"@
    } else if status == 404 {
        "not_found"@
    } else if status == 409 {
        "conflict"@
    } else if status == 422 {
        "unprocessable_entity"@
    } else if status == 429 {
        "too_many_requests"@
    } else if status == 500 {
        "internal_error"@
    } else if status == 503 {
        "service_unavailable"@
    } else {
        "http_error"@
    }
}

/// The error code of an HTTP status.
pub fn response_status_code(status: u16) -> (r: &'static str)
    ensures
        r@ == status_code_name(status),
{
    if status == 400 {
        "bad_request"
    } else if status == 401 {
        "unauthorized"
    } else if status == 403 {
        "forbidden"
    } else if status == 404 {
        "not_found"
    } else if status == 409 {
        "conflict"
    } else if status == 422 {
        "unprocessable_entity"
    } else if status == 429 {
        "too_many_requests"
    } else if status == 500 {
        "internal_error"
    } else if status == 503 {
        "service_unavailable"
    } else {
        "http_error"
    }
}

/// The code, message and request ID of a refused request: taken from the
/// answer when it is a JSON object that holds them (code and message as text,
/// request ID as an unsigned number), else the status's code, the answer's
/// trimmed text and 0.
pub open spec fn refusal(status: u16, text: Seq<char>, parsed: Option<JsonValue>) -> (Seq<char>, Seq<char>, u64) {
    match parsed {
        Some(JsonValue::Object(m)) => (
            match field(m@, "code"@) {
                Some(JsonValue::String(c)) => c@,
                _ => status_code_name(status),
            },
            match field(m@, "message"@) {
                Some(JsonValue::String(x)) => x@,
                _ => trim_spec(text),
            },
            match field(m@, "request_id"@) {
                Some(JsonValue::Number(n)) => match n.as_u64 {
                    Some(u) => u,
                    None => 0,
                },
                _ => 0,
            },
        ),
        _ => (status_code_name(status), trim_spec(text), 0),
    }
}

fn contains_status(statuses: &Vec<u16>, status: u16) -> (r: bool)
    ensures
        r == statuses@.contains(status),
{
    let mut i: usize = 0;
    while i < statuses.len()
        invariant
            i <= statuses@.len(),
            forall|j: int| 0 <= j < i ==> statuses@[j] != status,
        decreases statuses@.len() - i,
    {
        if statuses[i] == status {
            return true;
        }
        i = i + 1;
    }
    false
}

/// Reads an answer: its text when the status is one of `statuses`, else a
/// server error (see `refusal`). `parsed` is the answer's text parsed as JSON,
/// if it parses.
pub fn read_response(status: u16, text: String, statuses: &Vec<u16>, parsed: Option<JsonValue>) -> (r: Result<
    String,
    Error,
>)
    ensures
        statuses@.contains(status) ==> r == Ok::<String, Error>(text),
        !statuses@.contains(status) ==> (r matches Err(Error::Server(e)) && (e.code@, e.server_message@, e.request_id)
            == refusal(status, text@, parsed)),
{
    if contains_status(statuses, status) {
        return Ok(text);
    }
    match &parsed {
        Some(JsonValue::Object(m)) => {
            let code = match get(m, "code") {
                Some(JsonValue::String(c)) => c.clone(),
                _ => String::from_str(response_status_code(status)),
            };
            let message = match get(m, "message") {
                Some(JsonValue::String(x)) => x.clone(),
                _ => trim_text(text.as_str()),
            };
            let request_id = match get(m, "request_id") {
                Some(JsonValue::Number(n)) => match n.as_u64 {
                    Some(u) => u,
                    None => 0,
                },
                _ => 0,
            };
            Err(Error::Server(ServerError { code, server_message: message, request_id }))
        },
        _ => {
            let message = trim_text(text.as_str());
            Err(
                Error::Server(
                    ServerError {
                        code: String::from_str(response_status_code(status)),
                        server_message: message,
                        request_id: 0,
                    },
                ),
            )
        },
    }
}

/// Reads an accepted answer as JSON: a blank text is `null`; otherwise the
/// parse of the text, or a protocol error with the parser's message.
pub fn json_response(text: &str, parsed: Result<JsonValue, String>) -> (r: Result<JsonValue, Error>)
    ensures
        crate::text::is_blank(text@) ==> r == Ok::<JsonValue, Error>(JsonValue::Null),
        !crate::text::is_blank(text@) ==> match parsed {
            Ok(v) => r == Ok::<JsonValue, Error>(v),
            Err(m) => r matches Err(e) && is_protocol(e, "invalid JSON response: "@ + m@),
        },
{
    let t = trim_text(text);
    proof {
        crate::text::lemma_trim_empty_iff_blank(text@);
    }
    if t.unicode_len() == 0 {
        return Ok(JsonValue::Null);
    }
    match parsed {
        Ok(v) => Ok(v),
        Err(m) => {
            let msg = join2("invalid JSON response: ", m.as_str());
            Err(Error::protocol(msg.as_str()))
        },
    }
}

/// The token a login answer carries; an answer without a non-empty token text
/// is a protocol error.
pub fn login_token(response: &JsonValue) -> (r: Result<String, Error>)
    ensures
        match *response {
            JsonValue::Object(m) => match field(m@, "token"@) {
                Some(JsonValue::String(t)) => if t@.len() > 0 {
                    r matches Ok(x) && x@ == t@
                } else {
                    r matches Err(e) && is_protocol(e, "empty token in login response"@)
                },
                _ => r matches Err(e) && is_protocol(e, "empty token in login response"@),
            },
            _ => r matches Err(e) && is_protocol(e, "unexpected JSON object"@),
        },
{
    let object = expect_object(response)?;
    match get(object, "token") {
        Some(JsonValue::String(t)) => {
            if t.unicode_len() > 0 {
                Ok(t.clone())
            } else {
                Err(Error::protocol("empty token in login response"))
            }
        },
        _ => Err(Error::protocol("empty token in login response")),
    }
}

// ----- outside computations -----

/// What `serde_json::from_slice::<serde_json::Value>` reports for some bytes:
/// `None` when they parse, else the error's message.
pub uninterp spec fn json_parse_error(data: Seq<u8>) -> Option<Seq<char>>;

/// `serde_json::from_slice::<serde_json::Value>(data)`, keeping only whether it
/// parsed and the error's message.
#[verifier::external_body]
fn json_syntax_error(data: &Vec<u8>) -> (r: Option<String>)
    ensures
        match r {
            Some(m) => json_parse_error(data@) == Some(m@),
            None => json_parse_error(data@) is None,
        },
{
    match serde_json::from_slice::<serde_json::Value>(data) {
        Ok(_) => None,
        Err(e) => Some(e.to_string()),
    }
}

/// Bytes sent as JSON must parse; the error names the field.
pub fn json_bytes_to_value(data: Vec<u8>, name: &str) -> (r: Result<BodyValue, Error>)
    ensures
        match json_parse_error(data@) {
            None => r == Ok::<BodyValue, Error>(BodyValue::Json(data)),
            Some(m) => r matches Err(e) && is_validation(e, name@ + " must be valid JSON: "@ + m),
        },
{
    match json_syntax_error(&data) {
        None => Ok(BodyValue::Json(data)),
        Some(m) => {
            let msg = join3(name, " must be valid JSON: ", m.as_str());
            Err(Error::validation(msg.as_str()))
        },
    }
}

/// What `form_urlencoded::Serializer` gives for one `name=value` pair.
pub uninterp spec fn form_pair_encoded(name: Seq<char>, value: Seq<char>) -> Seq<char>;

/// `form_urlencoded::Serializer::new(String::new()).append_pair(name, value).finish()`.
#[verifier::external_body]
fn form_pair(name: &str, value: &str) -> (r: String)
    ensures
        r@ == form_pair_encoded(name@, value@),
{
    url::form_urlencoded::Serializer::new(String::new()).append_pair(name, value).finish()
}

// ----- paths -----

/// `/nodes/N/users/U` for a user.
pub open spec fn user_path(u: UserRef) -> Seq<char> {
    "/nodes/"@ + decimal_int(u.node_id as int) + "/users/"@ + decimal_int(u.user_id as int)
}

fn user_path_text(u: &UserRef) -> (r: String)
    ensures
        r@ == user_path(*u),
{
    let n = i64_to_decimal(u.node_id);
    let id = i64_to_decimal(u.user_id);
    join4("/nodes/", n.as_str(), "/users/", id.as_str())
}

// ----- the client -----

/// A body member's value, as the contracts see it.
pub enum BodyView {
    Text(Seq<char>),
    Int(i64),
    Json(Seq<u8>),
    EmptyObject,
}

/// A body value as the contracts see it.
pub open spec fn body_value_view(v: BodyValue) -> BodyView {
    match v {
        BodyValue::Text(s) => BodyView::Text(s@),
        BodyValue::Int(i) => BodyView::Int(i),
        BodyValue::Json(b) => BodyView::Json(b@),
        BodyValue::EmptyObject => BodyView::EmptyObject,
    }
}

/// A request body's members, as the contracts see them.
pub open spec fn body_view(members: Seq<(String, BodyValue)>) -> Seq<(Seq<char>, BodyView)> {
    members.map_values(|m: (String, BodyValue)| (m.0@, body_value_view(m.1)))
}

/// A request's body holds members `b`.
pub open spec fn body_is(q: HttpRequest, b: Seq<(Seq<char>, BodyView)>) -> bool {
    q.body matches Some(x) && body_view(x@) == b
}

/// A request's method, path, token and statuses.
pub open spec fn request_is(r: HttpRequest, method: HttpMethod, path: Seq<char>, token: Seq<char>, statuses: Seq<u16>) -> bool {
    &&& r.method == method
    &&& r.path@ == path
    &&& r.token@ == token
    &&& r.statuses@ == statuses
}

/// The base URL the client sends to.
#[derive(Clone, Debug)]
pub struct HttpClient {
    base_url: String,
}

impl HttpClient {
    /// The base URL without trailing slashes.
    pub closed spec fn spec_base_url(&self) -> Seq<char> {
        self.base_url@
    }

    /// A client for `base_url`, kept without trailing slashes; a blank URL is refused.
    pub fn new(base_url: &str) -> (r: Result<HttpClient, Error>)
        ensures
            crate::text::is_blank(crate::client::without_trailing_slashes(base_url@)) ==> (r matches Err(e)
                && is_validation(e, "base_url is required"@)),
            !crate::text::is_blank(crate::client::without_trailing_slashes(base_url@)) ==> (r matches Ok(c)
                && c.spec_base_url() == crate::client::without_trailing_slashes(base_url@)),
    {
        let trimmed = crate::client::trim_trailing_slashes(base_url);
        let t = trim_text(trimmed.as_str());
        proof {
            crate::text::lemma_trim_empty_iff_blank(trimmed@);
        }
        if t.unicode_len() == 0 {
            return Err(Error::validation("base_url is required"));
        }
        Ok(HttpClient { base_url: trimmed })
    }

    /// The base URL.
    pub fn base_url(&self) -> (r: &str)
        ensures
            r@ == self.spec_base_url(),
    {
        self.base_url.as_str()
    }

    /// The full URL of a request path.
    pub fn url(&self, path: &str) -> (r: String)
        ensures
            r@ == self.spec_base_url() + path@,
    {
        join2(self.base_url.as_str(), path)
    }
}

fn statuses1(a: u16) -> (r: Vec<u16>)
    ensures
        r@ == seq![a],
{
    let mut v: Vec<u16> = Vec::new();
    v.push(a);
    v
}

fn statuses2(a: u16, b: u16) -> (r: Vec<u16>)
    ensures
        r@ == seq![a, b],
{
    let mut v: Vec<u16> = Vec::new();
    v.push(a);
    v.push(b);
    v
}

fn member(key: &str, value: BodyValue) -> (r: (String, BodyValue))
    ensures
        r.0@ == key@,
        r.1 == value,
{
    (String::from_str(key), value)
}

// ----- login -----

/// Logs in by node and user ID with a password input: both IDs must be
/// positive and the password not empty.
pub fn login_with_password_request(node_id: i64, user_id: i64, password: &PasswordInput) -> (r: Result<
    HttpRequest,
    Error,
>)
    ensures
        node_id <= 0 ==> (r matches Err(e) && is_validation(e, "node_id is required"@)),
        node_id > 0 && user_id <= 0 ==> (r matches Err(e) && is_validation(e, "user_id is required"@)),
        node_id > 0 && user_id > 0 && password.spec_encoded().len() == 0 ==> (r matches Err(e)
            && is_validation(e, "password is required"@)),
        node_id > 0 && user_id > 0 && password.spec_encoded().len() > 0 ==> (r matches Ok(q) && {
            &&& request_is(q, HttpMethod::Post, "/auth/login"@, Seq::empty(), seq![200u16])
            &&& q.body matches Some(b) && body_view(b@) == seq![
                ("node_id"@, BodyView::Int(node_id)),
                ("user_id"@, BodyView::Int(user_id)),
                ("password"@, BodyView::Text(password.spec_encoded())),
            ]
        }),
{
    proof {
        reveal_strlit("node_id");
        reveal_strlit("user_id");
        reveal_strlit(" is required");
        reveal_strlit("node_id is required");
        reveal_strlit("user_id is required");
        assert("node_id"@ + " is required"@ =~= "node_id is required"@);
        assert("user_id"@ + " is required"@ =~= "user_id is required"@);
    }
    validate_positive_i64(node_id, "node_id")?;
    validate_positive_i64(user_id, "user_id")?;
    let pw = password.wire_value()?;
    let mut body: Vec<(String, BodyValue)> = Vec::new();
    body.push(member("node_id", BodyValue::Int(node_id)));
    body.push(member("user_id", BodyValue::Int(user_id)));
    body.push(member("password", BodyValue::Text(String::from_str(pw))));
    assert(body_view(body@) =~= seq![
        ("node_id"@, BodyView::Int(node_id)),
        ("user_id"@, BodyView::Int(user_id)),
        ("password"@, BodyView::Text(password.spec_encoded())),
    ]);
    Ok(
        HttpRequest {
            method: HttpMethod::Post,
            path: String::from_str("/auth/login"),
            token: String::new(),
            body: Some(body),
            statuses: statuses1(200),
        },
    )
}

/// Logs in by login name with a password input: the name is sent trimmed and
/// must not be blank; the password must not be empty.
pub fn login_by_login_name_with_password_request(login_name: &str, password: &PasswordInput) -> (r:
    Result<HttpRequest, Error>)
    ensures
        crate::text::is_blank(login_name@) ==> (r matches Err(e) && is_validation(e, "login_name is required"@)),
        !crate::text::is_blank(login_name@) && password.spec_encoded().len() == 0 ==> (r matches Err(e)
            && is_validation(e, "password is required"@)),
        !crate::text::is_blank(login_name@) && password.spec_encoded().len() > 0 ==> (r matches Ok(q) && {
            &&& request_is(q, HttpMethod::Post, "/auth/login"@, Seq::empty(), seq![200u16])
            &&& q.body matches Some(b) && body_view(b@) == seq![
                ("login_name"@, BodyView::Text(trim_spec(login_name@))),
                ("password"@, BodyView::Text(password.spec_encoded())),
            ]
        }),
{
    proof {
        reveal_strlit("login_name");
        reveal_strlit(" is required");
        reveal_strlit("login_name is required");
        assert("login_name"@ + " is required"@ =~= "login_name is required"@);
        crate::text::lemma_trim_empty_iff_blank(login_name@);
        crate::text::lemma_trim_empty_iff_blank(trim_spec(login_name@));
    }
    let name = normalize_login_name(login_name);
    proof {
        lemma_trim_idempotent(login_name@);
    }
    validate_login_name(name.as_str(), "login_name")?;
    let pw = password.wire_value()?;
    let mut body: Vec<(String, BodyValue)> = Vec::new();
    body.push(member("login_name", BodyValue::Text(name)));
    body.push(member("password", BodyValue::Text(String::from_str(pw))));
    assert(body_view(body@) =~= seq![
        ("login_name"@, BodyView::Text(trim_spec(login_name@))),
        ("password"@, BodyView::Text(password.spec_encoded())),
    ]);
    Ok(
        HttpRequest {
            method: HttpMethod::Post,
            path: String::from_str("/auth/login"),
            token: String::new(),
            body: Some(body),
            statuses: statuses1(200),
        },
    )
}

/// A text is blank exactly when its trim is.
proof fn lemma_trim_idempotent(s: Seq<char>)
    ensures
        crate::text::is_blank(trim_spec(s)) == crate::text::is_blank(s),
{
    crate::text::lemma_trim_empty_iff_blank(s);
    if !crate::text::is_blank(s) {
        crate::text::lemma_leading_ws_bound(s);
        let a = crate::text::leading_ws(s) as int;
        if a == s.len() {
            assert forall|i: int| 0 <= i < s.len() implies crate::text::is_ws(#[trigger] s[i]) by {}
        }
        let rest = s.skip(a);
        assert(rest[0] == s[a]);
        crate::text::lemma_trailing_ws_bound(rest);
        assert(trim_spec(s) == rest.take(rest.len() - crate::text::trailing_ws(rest)));
        assert(trim_spec(s)[0] == rest[0]);
        assert(!crate::text::is_ws(trim_spec(s)[0]));
    }
}

// ----- users -----

/// What is wrong with a user to create over HTTP, in the order it is checked.
pub open spec fn http_create_user_problem(req: CreateUserRequest) -> Option<Seq<char>> {
    if crate::requests::create_user_problem(req) is Some {
        crate::requests::create_user_problem(req)
    } else if req.profile_json@.len() > 0 && json_parse_error(req.profile_json@) is Some {
        Some("profile_json must be valid JSON: "@ + json_parse_error(req.profile_json@)->0)
    } else {
        None
    }
}

/// The body of a user creation: username and role, then the login name, the
/// password and the profile when given.
pub open spec fn create_user_body(req: CreateUserRequest) -> Seq<(Seq<char>, BodyView)> {
    let login_name = match crate::requests::create_login_name(req.login_name) {
        Some(n) => seq![("login_name"@, BodyView::Text(n))],
        None => Seq::empty(),
    };
    let password = match req.password {
        Some(p) => seq![("password"@, BodyView::Text(p.spec_encoded()))],
        None => Seq::empty(),
    };
    let profile = if req.profile_json@.len() > 0 {
        seq![("profile"@, BodyView::Json(req.profile_json@))]
    } else {
        Seq::empty()
    };
    seq![("username"@, BodyView::Text(req.username@)), ("role"@, BodyView::Text(req.role@))] + login_name
        + password + profile
}

/// Creates a user (POST `/users`): the username and role must be given, a
/// channel cannot have a login name, a password when given must not be
/// empty, and a profile when given must be JSON.
pub fn create_user_request(token: &str, request: CreateUserRequest) -> (r: Result<HttpRequest, Error>)
    ensures
        match http_create_user_problem(request) {
            Some(m) => r matches Err(e) && is_validation(e, m),
            None => r matches Ok(q) && request_is(q, HttpMethod::Post, "/users"@, token@, seq![200u16, 201u16])
                && body_is(q, create_user_body(request)),
        },
{
    proof {
        reveal_strlit("profile_json");
        reveal_strlit(" must be valid JSON: ");
        reveal_strlit("profile_json must be valid JSON: ");
        assert("profile_json"@ + " must be valid JSON: "@ =~= "profile_json must be valid JSON: "@);
    }
    let ghost req = request;
    let CreateUserRequest { username, login_name, password, profile_json, role } = request;
    if username.unicode_len() == 0 {
        return Err(Error::validation("username is required"));
    }
    if role.unicode_len() == 0 {
        return Err(Error::validation("role is required"));
    }
    let login_name = match login_name {
        Some(n) => {
            let t = normalize_login_name(n.as_str());
            if t.unicode_len() == 0 {
                None
            } else {
                Some(t)
            }
        },
        None => None,
    };
    if crate::requests::is_channel(role.as_str()) && login_name.is_some() {
        return Err(Error::validation("login_name requires a login-enabled user"));
    }
    let mut body: Vec<(String, BodyValue)> = Vec::new();
    body.push(member("username", BodyValue::Text(username)));
    body.push(member("role", BodyValue::Text(role)));
    let ghost base = body_view(body@);
    match login_name {
        Some(n) => {
            body.push(member("login_name", BodyValue::Text(n)));
        },
        None => {},
    }
    let ghost with_name = body_view(body@);
    match &password {
        Some(p) => {
            let pw = p.wire_value()?;
            body.push(member("password", BodyValue::Text(String::from_str(pw))));
        },
        None => {},
    }
    let ghost with_password = body_view(body@);
    if profile_json.len() > 0 {
        let profile = json_bytes_to_value(profile_json, "profile_json")?;
        body.push(member("profile", profile));
    }
    proof {
        assert(base =~= seq![("username"@, BodyView::Text(req.username@)), ("role"@, BodyView::Text(req.role@))]);
        assert(with_name =~= base + match crate::requests::create_login_name(req.login_name) {
            Some(n) => seq![("login_name"@, BodyView::Text(n))],
            None => Seq::empty(),
        });
        assert(with_password =~= with_name + match req.password {
            Some(p) => seq![("password"@, BodyView::Text(p.spec_encoded()))],
            None => Seq::empty(),
        });
        assert(body_view(body@) =~= with_password + if req.profile_json@.len() > 0 {
            seq![("profile"@, BodyView::Json(req.profile_json@))]
        } else {
            Seq::empty()
        });
    }
    Ok(
        HttpRequest {
            method: HttpMethod::Post,
            path: String::from_str("/users"),
            token: String::from_str(token),
            body: Some(body),
            statuses: statuses2(200, 201),
        },
    )
}

/// A request that addresses one user: `target` must be valid.
pub open spec fn user_request(r: Result<HttpRequest, Error>, target: UserRef, method: HttpMethod, suffix: Seq<char>, token: Seq<char>, statuses: Seq<u16>) -> bool {
    match crate::validation::user_ref_check(target, "target"@) {
        Some(m) => r matches Err(e) && is_validation(e, m),
        None => r matches Ok(q) && request_is(q, method, user_path(target) + suffix, token, statuses)
            && q.body is None,
    }
}

/// Reads a user (GET `/nodes/N/users/U`).
pub fn get_user_request(token: &str, target: &UserRef) -> (r: Result<HttpRequest, Error>)
    ensures
        user_request(r, *target, HttpMethod::Get, Seq::empty(), token@, seq![200u16]),
{
    crate::validation::validate_user_ref(target, "target")?;
    let path = user_path_text(target);
    assert(path@ + Seq::<char>::empty() =~= path@);
    Ok(
        HttpRequest {
            method: HttpMethod::Get,
            path,
            token: String::from_str(token),
            body: None,
            statuses: statuses1(200),
        },
    )
}

/// Deletes a user (DELETE `/nodes/N/users/U`).
pub fn delete_user_request(token: &str, target: &UserRef) -> (r: Result<HttpRequest, Error>)
    ensures
        user_request(r, *target, HttpMethod::Delete, Seq::empty(), token@, seq![200u16]),
{
    crate::validation::validate_user_ref(target, "target")?;
    let path = user_path_text(target);
    assert(path@ + Seq::<char>::empty() =~= path@);
    Ok(
        HttpRequest {
            method: HttpMethod::Delete,
            path,
            token: String::from_str(token),
            body: None,
            statuses: statuses1(200),
        },
    )
}

/// What is wrong with an update over HTTP, in the order it is checked.
pub open spec fn http_update_user_problem(target: UserRef, req: UpdateUserRequest) -> Option<Seq<char>> {
    if crate::requests::update_user_problem(target, req) is Some {
        crate::requests::update_user_problem(target, req)
    } else if req.profile_json is Some && json_parse_error(req.profile_json->0@) is Some {
        Some("profile_json must be valid JSON: "@ + json_parse_error(req.profile_json->0@)->0)
    } else {
        None
    }
}

/// The body of an update: each field given, in order username, login name
/// (trimmed), password, profile, role.
pub open spec fn update_user_body(req: UpdateUserRequest) -> Seq<(Seq<char>, BodyView)> {
    let username = match req.username {
        Some(u) => seq![("username"@, BodyView::Text(u@))],
        None => Seq::empty(),
    };
    let login_name = match req.login_name {
        Some(n) => seq![("login_name"@, BodyView::Text(trim_spec(n@)))],
        None => Seq::empty(),
    };
    let password = match req.password {
        Some(p) => seq![("password"@, BodyView::Text(p.spec_encoded()))],
        None => Seq::empty(),
    };
    let profile = match req.profile_json {
        Some(b) => seq![("profile"@, BodyView::Json(b@))],
        None => Seq::empty(),
    };
    let role = match req.role {
        Some(x) => seq![("role"@, BodyView::Text(x@))],
        None => Seq::empty(),
    };
    username + login_name + password + profile + role
}

/// Updates the given fields of a user (PATCH `/nodes/N/users/U`).
pub fn update_user_request(token: &str, target: &UserRef, request: UpdateUserRequest) -> (r: Result<
    HttpRequest,
    Error,
>)
    ensures
        match http_update_user_problem(*target, request) {
            Some(m) => r matches Err(e) && is_validation(e, m),
            None => r matches Ok(q) && request_is(q, HttpMethod::Patch, user_path(*target), token@, seq![200u16])
                && body_is(q, update_user_body(request)),
        },
{
    proof {
        reveal_strlit("profile_json");
        reveal_strlit(" must be valid JSON: ");
        reveal_strlit("profile_json must be valid JSON: ");
        assert("profile_json"@ + " must be valid JSON: "@ =~= "profile_json must be valid JSON: "@);
    }
    let ghost req = request;
    crate::validation::validate_user_ref(target, "target")?;
    let UpdateUserRequest { username, login_name, password, profile_json, role } = request;
    let login_name = match login_name {
        Some(n) => Some(normalize_login_name(n.as_str())),
        None => None,
    };
    let channel = match &role {
        Some(x) => crate::requests::is_channel(x.as_str()),
        None => false,
    };
    let named = match &login_name {
        Some(n) => n.unicode_len() > 0,
        None => false,
    };
    if channel && named {
        return Err(Error::validation("login_name requires a login-enabled user"));
    }
    let mut body: Vec<(String, BodyValue)> = Vec::new();
    let ghost b0 = body_view(body@);
    match username {
        Some(u) => {
            body.push(member("username", BodyValue::Text(u)));
        },
        None => {},
    }
    let ghost b1 = body_view(body@);
    match login_name {
        Some(n) => {
            body.push(member("login_name", BodyValue::Text(n)));
        },
        None => {},
    }
    let ghost b2 = body_view(body@);
    match &password {
        Some(p) => {
            let pw = p.wire_value()?;
            body.push(member("password", BodyValue::Text(String::from_str(pw))));
        },
        None => {},
    }
    let ghost b3 = body_view(body@);
    match profile_json {
        Some(b) => {
            let profile = json_bytes_to_value(b, "profile_json")?;
            body.push(member("profile", profile));
        },
        None => {},
    }
    let ghost b4 = body_view(body@);
    match role {
        Some(x) => {
            body.push(member("role", BodyValue::Text(x)));
        },
        None => {},
    }
    proof {
        assert(b0 =~= Seq::empty());
        assert(b1 =~= b0 + match req.username {
            Some(u) => seq![("username"@, BodyView::Text(u@))],
            None => Seq::empty(),
        });
        assert(b2 =~= b1 + match req.login_name {
            Some(n) => seq![("login_name"@, BodyView::Text(trim_spec(n@)))],
            None => Seq::empty(),
        });
        assert(b3 =~= b2 + match req.password {
            Some(p) => seq![("password"@, BodyView::Text(p.spec_encoded()))],
            None => Seq::empty(),
        });
        assert(b4 =~= b3 + match req.profile_json {
            Some(b) => seq![("profile"@, BodyView::Json(b@))],
            None => Seq::empty(),
        });
        assert(body_view(body@) =~= b4 + match req.role {
            Some(x) => seq![("role"@, BodyView::Text(x@))],
            None => Seq::empty(),
        });
        assert(body_view(body@) =~= update_user_body(req));
    }
    Ok(
        HttpRequest {
            method: HttpMethod::Patch,
            path: user_path_text(target),
            token: String::from_str(token),
            body: Some(body),
            statuses: statuses1(200),
        },
    )
}

/// The query of a user listing: `name=` with the trimmed name when it is not
/// blank, `uid=N:U` when the reference is set, joined by `&`.
pub open spec fn list_users_query(name: Seq<char>, uid: UserRef) -> Seq<char> {
    let has_name = !crate::text::is_blank(name);
    let has_uid = !(uid.node_id == 0 && uid.user_id == 0);
    let n = form_pair_encoded("name"@, trim_spec(name));
    let u = form_pair_encoded("uid"@, decimal_int(uid.node_id as int) + ":"@ + decimal_int(uid.user_id as int));
    if has_name && has_uid {
        n + "&"@ + u
    } else if has_name {
        n
    } else if has_uid {
        u
    } else {
        Seq::empty()
    }
}

/// Lists the active users the caller may talk to (GET `/users`), filtered by
/// name and by user reference; a blank name and `{0, 0}` filter nothing, a
/// reference set in part is refused.
pub fn list_users_request(token: &str, request: &ListUsersRequest) -> (r: Result<HttpRequest, Error>)
    ensures
        !(request.uid.node_id == 0 && request.uid.user_id == 0) && crate::validation::user_ref_check(
            request.uid,
            "request.uid"@,
        ) is Some ==> (r matches Err(e) && is_validation(
            e,
            crate::validation::user_ref_check(request.uid, "request.uid"@)->0,
        )),
        ((request.uid.node_id == 0 && request.uid.user_id == 0) || crate::validation::user_ref_check(
            request.uid,
            "request.uid"@,
        ) is None) ==> (r matches Ok(q) && request_is(
            q,
            HttpMethod::Get,
            if crate::text::is_blank(request.name@) && request.uid.node_id == 0 && request.uid.user_id == 0 {
                "/users"@
            } else {
                "/users?"@ + list_users_query(request.name@, request.uid)
            },
            token@,
            seq![200u16],
        ) && q.body is None),
{
    let name = crate::validation::normalize_optional_filter(request.name.as_str());
    let has_uid = crate::validation::validate_optional_user_ref(&request.uid, "request.uid")?;
    let name_pair = match &name {
        Some(n) => Some(form_pair("name", n.as_str())),
        None => None,
    };
    let uid_pair = if has_uid {
        let n = i64_to_decimal(request.uid.node_id);
        let u = i64_to_decimal(request.uid.user_id);
        let v = join3(n.as_str(), ":", u.as_str());
        Some(form_pair("uid", v.as_str()))
    } else {
        None
    };
    let path = match (name_pair, uid_pair) {
        (Some(a), Some(b)) => join4("/users?", a.as_str(), "&", b.as_str()),
        (Some(a), None) => join2("/users?", a.as_str()),
        (None, Some(b)) => join2("/users?", b.as_str()),
        (None, None) => String::from_str("/users"),
    };
    proof {
        crate::text::lemma_trim_empty_iff_blank(request.name@);
        assert(path@ =~= if crate::text::is_blank(request.name@) && request.uid.node_id == 0 && request.uid.user_id == 0 {
            "/users"@
        } else {
            "/users?"@ + list_users_query(request.name@, request.uid)
        });
    }
    Ok(HttpRequest { method: HttpMethod::Get, path, token: String::from_str(token), body: None, statuses: statuses1(200) })
}

// ----- metadata -----

/// `/nodes/N/users/U/metadata/KEY`.
pub open spec fn metadata_path(owner: UserRef, key: Seq<char>) -> Seq<char> {
    user_path(owner) + "/metadata/"@ + key
}

fn metadata_path_text(owner: &UserRef, key: &str) -> (r: String)
    ensures
        r@ == metadata_path(*owner, key@),
{
    let base = user_path_text(owner);
    join3(base.as_str(), "/metadata/", key)
}

/// A request about one metadata entry: the owner and key must be valid.
pub open spec fn metadata_request(r: Result<HttpRequest, Error>, owner: UserRef, key: Seq<char>, method: HttpMethod, token: Seq<char>, statuses: Seq<u16>) -> bool {
    match crate::requests::owner_key_problem(owner, key) {
        Some(m) => r matches Err(e) && is_validation(e, m),
        None => r matches Ok(q) && request_is(q, method, metadata_path(owner, key), token, statuses),
    }
}

/// Reads a metadata entry (GET `/nodes/N/users/U/metadata/KEY`).
pub fn get_user_metadata_request(token: &str, owner: &UserRef, key: &str) -> (r: Result<HttpRequest, Error>)
    ensures
        metadata_request(r, *owner, key@, HttpMethod::Get, token@, seq![200u16]),
        r matches Ok(q) ==> q.body is None,
{
    crate::validation::validate_user_ref(owner, "owner")?;
    crate::validation::validate_user_metadata_key(key, "key")?;
    Ok(HttpRequest { method: HttpMethod::Get, path: metadata_path_text(owner, key), token: String::from_str(token), body: None, statuses: statuses1(200) })
}

/// Deletes a metadata entry (DELETE `/nodes/N/users/U/metadata/KEY`).
pub fn delete_user_metadata_request(token: &str, owner: &UserRef, key: &str) -> (r: Result<HttpRequest, Error>)
    ensures
        metadata_request(r, *owner, key@, HttpMethod::Delete, token@, seq![200u16]),
        r matches Ok(q) ==> q.body is None,
{
    crate::validation::validate_user_ref(owner, "owner")?;
    crate::validation::validate_user_metadata_key(key, "key")?;
    Ok(HttpRequest { method: HttpMethod::Delete, path: metadata_path_text(owner, key), token: String::from_str(token), body: None, statuses: statuses1(200) })
}

/// Writes a metadata entry (PUT `/nodes/N/users/U/metadata/KEY`) with its value
/// as base64 text and its expiry when given.
pub fn upsert_user_metadata_request(token: &str, owner: &UserRef, key: &str, request: UpsertUserMetadataRequest) -> (r: Result<HttpRequest, Error>)
    requires
        request.value@.len() <= usize::MAX / 2,
    ensures
        metadata_request(r, *owner, key@, HttpMethod::Put, token@, seq![200u16, 201u16]),
        r matches Ok(q) ==> body_is(q, seq![("value"@, BodyView::Text(crate::http_mapping::base64_encoded(request.value@)))]
            + match request.expires_at {
            Some(x) => seq![("expires_at"@, BodyView::Text(x@))],
            None => Seq::empty(),
        }),
{
    crate::validation::validate_user_ref(owner, "owner")?;
    crate::validation::validate_user_metadata_key(key, "key")?;
    let ghost expires = request.expires_at;
    let encoded = base64_encode(&request.value);
    let mut body: Vec<(String, BodyValue)> = Vec::new();
    body.push(member("value", BodyValue::Text(encoded)));
    let ghost b1 = body_view(body@);
    assert(b1 =~= seq![("value"@, BodyView::Text(crate::http_mapping::base64_encoded(request.value@)))]);
    match request.expires_at {
        Some(x) => {
            body.push(member("expires_at", BodyValue::Text(x)));
        },
        None => {},
    }
    proof {
        assert(body_view(body@) =~= b1 + match expires {
            Some(x) => seq![("expires_at"@, BodyView::Text(x@))],
            None => Seq::empty(),
        });
    }
    Ok(HttpRequest { method: HttpMethod::Put, path: metadata_path_text(owner, key), token: String::from_str(token), body: Some(body), statuses: statuses2(200, 201) })
}

/// The query of a scan: `prefix=`, `after=` and `limit=` for the parameters
/// given (non-empty texts, a positive limit), joined by `&`.
pub open spec fn scan_params(req: ScanUserMetadataRequest) -> Seq<Seq<char>> {
    (if req.prefix@.len() > 0 { seq!["prefix="@ + req.prefix@] } else { Seq::empty() })
        + (if req.after@.len() > 0 { seq!["after="@ + req.after@] } else { Seq::empty() })
        + (if req.limit > 0 { seq!["limit="@ + decimal_int(req.limit as int)] } else { Seq::empty() })
}

/// `?` followed by the parameters joined by `&`; nothing when there are none.
pub open spec fn query_suffix(params: Seq<Seq<char>>) -> Seq<char> {
    if params.len() == 0 {
        Seq::empty()
    } else {
        "?"@ + join_amp(params)
    }
}

/// Texts joined by `&`.
pub open spec fn join_amp(params: Seq<Seq<char>>) -> Seq<char>
    decreases params.len(),
{
    if params.len() == 0 {
        Seq::empty()
    } else if params.len() == 1 {
        params[0]
    } else {
        join_amp(params.drop_last()) + "&"@ + params.last()
    }
}

fn push_param(query: &mut String, count: &mut usize, param: &str, ghost_params: Ghost<Seq<Seq<char>>>)
    requires
        *old(count) == ghost_params@.len(),
        old(query)@ == query_suffix(ghost_params@),
        *old(count) < usize::MAX,
    ensures
        *final(count) == *old(count) + 1,
        final(query)@ == query_suffix(ghost_params@.push(param@)),
{
    let ghost ps = ghost_params@;
    proof {
        assert(ps.push(param@).drop_last() =~= ps);
    }
    if *count == 0 {
        query.append("?");
        proof {
            reveal_strlit("?");
        }
    } else {
        query.append("&");
    }
    query.append(param);
    *count = *count + 1;
    proof {
        if ps.len() == 0 {
            assert(ps.push(param@).len() == 1);
            assert(query@ =~= "?"@ + param@);
        } else {
            assert(query@ =~= "?"@ + join_amp(ps) + "&"@ + param@);
        }
    }
}

/// Scans an owner's metadata (GET `/nodes/N/users/U/metadata`), with the
/// prefix, continuation key and limit given as query parameters.
pub fn scan_user_metadata_request(token: &str, owner: &UserRef, request: &ScanUserMetadataRequest) -> (r: Result<
    HttpRequest,
    Error,
>)
    ensures
        match crate::requests::scan_problem(*owner, *request) {
            Some(m) => r matches Err(e) && is_validation(e, m),
            None => r matches Ok(q) && request_is(
                q,
                HttpMethod::Get,
                user_path(*owner) + "/metadata"@ + query_suffix(scan_params(*request)),
                token@,
                seq![200u16],
            ) && q.body is None,
        },
{
    crate::validation::validate_user_ref(owner, "owner")?;
    crate::validation::validate_optional_user_metadata_key_fragment(request.prefix.as_str(), "prefix")?;
    crate::validation::validate_optional_user_metadata_key_fragment(request.after.as_str(), "after")?;
    crate::validation::validate_user_metadata_scan_limit(request.limit)?;
    let mut query = String::new();
    let mut count: usize = 0;
    let ghost mut ps: Seq<Seq<char>> = Seq::empty();
    if request.prefix.unicode_len() > 0 {
        let p = join2("prefix=", request.prefix.as_str());
        push_param(&mut query, &mut count, p.as_str(), Ghost(ps));
        proof {
            ps = ps.push(p@);
        }
    }
    if request.after.unicode_len() > 0 {
        let p = join2("after=", request.after.as_str());
        push_param(&mut query, &mut count, p.as_str(), Ghost(ps));
        proof {
            ps = ps.push(p@);
        }
    }
    if request.limit > 0 {
        let n = i64_to_decimal(request.limit as i64);
        let p = join2("limit=", n.as_str());
        push_param(&mut query, &mut count, p.as_str(), Ghost(ps));
        proof {
            ps = ps.push(p@);
        }
    }
    proof {
        assert(ps =~= scan_params(*request));
    }
    let base = user_path_text(owner);
    let path = join3(base.as_str(), "/metadata", query.as_str());
    Ok(HttpRequest { method: HttpMethod::Get, path, token: String::from_str(token), body: None, statuses: statuses1(200) })
}

// ----- messages -----

/// The query of a message listing: `limit=` when positive, then the peer's
/// node and user when both are given.
pub open spec fn list_messages_query(limit: i32, peer_node_id: Option<i64>, peer_user_id: Option<i64>) -> Seq<char> {
    let l = if limit > 0 {
        "?limit="@ + decimal_int(limit as int)
    } else {
        Seq::empty()
    };
    if peer_node_id is Some && peer_user_id is Some {
        l + (if l.len() == 0 {
            "?"@
        } else {
            "&"@
        }) + "peer_node_id="@ + decimal_int(peer_node_id->0 as int) + "&peer_user_id="@ + decimal_int(
            peer_user_id->0 as int,
        )
    } else {
        l
    }
}

/// Lists a user's messages (GET `/nodes/N/users/U/messages`); `{0, 0}` means
/// the caller, negative IDs are refused.
pub fn list_messages_request(
    token: &str,
    target: &UserRef,
    limit: i32,
    peer_node_id: Option<i64>,
    peer_user_id: Option<i64>,
) -> (r: Result<HttpRequest, Error>)
    ensures
        target.node_id < 0 ==> (r matches Err(e) && is_validation(e, "target.node_id must not be negative"@)),
        target.node_id >= 0 && target.user_id < 0 ==> (r matches Err(e) && is_validation(
            e,
            "target.user_id must not be negative"@,
        )),
        target.node_id >= 0 && target.user_id >= 0 ==> (r matches Ok(q) && request_is(
            q,
            HttpMethod::Get,
            user_path(*target) + "/messages"@ + list_messages_query(limit, peer_node_id, peer_user_id),
            token@,
            seq![200u16],
        ) && q.body is None),
{
    if target.node_id < 0 {
        return Err(Error::validation("target.node_id must not be negative"));
    }
    if target.user_id < 0 {
        return Err(Error::validation("target.user_id must not be negative"));
    }
    let mut suffix = String::new();
    if limit > 0 {
        let n = i64_to_decimal(limit as i64);
        suffix = join2("?limit=", n.as_str());
    }
    match (peer_node_id, peer_user_id) {
        (Some(a), Some(b)) => {
            let sep = if suffix.unicode_len() == 0 {
                "?"
            } else {
                "&"
            };
            let x = i64_to_decimal(a);
            let y = i64_to_decimal(b);
            let part = join4(sep, "peer_node_id=", x.as_str(), "&peer_user_id=");
            let part = join2(part.as_str(), y.as_str());
            suffix = join2(suffix.as_str(), part.as_str());
        },
        _ => {},
    }
    let base = user_path_text(target);
    let path = join3(base.as_str(), "/messages", suffix.as_str());
    proof {
        assert(path@ =~= user_path(*target) + "/messages"@ + list_messages_query(limit, peer_node_id, peer_user_id));
    }
    Ok(HttpRequest { method: HttpMethod::Get, path, token: String::from_str(token), body: None, statuses: statuses1(200) })
}

/// Posts a persisted message (POST `/nodes/N/users/U/messages`) with its body
/// as base64 text; the target must be valid and the body non-empty.
pub fn post_message_request(token: &str, target: &UserRef, body: &Vec<u8>) -> (r: Result<HttpRequest, Error>)
    requires
        body@.len() <= usize::MAX / 2,
    ensures
        match crate::validation::user_ref_check(*target, "target"@) {
            Some(m) => r matches Err(e) && is_validation(e, m),
            None => if body@.len() == 0 {
                r matches Err(e) && is_validation(e, "body is required"@)
            } else {
                r matches Ok(q) && request_is(
                    q,
                    HttpMethod::Post,
                    user_path(*target) + "/messages"@,
                    token@,
                    seq![200u16, 201u16],
                ) && body_is(q, seq![("body"@, BodyView::Text(crate::http_mapping::base64_encoded(body@)))])
            },
        },
{
    crate::validation::validate_user_ref(target, "target")?;
    if body.len() == 0 {
        return Err(Error::validation("body is required"));
    }
    let encoded = base64_encode(body);
    let mut members: Vec<(String, BodyValue)> = Vec::new();
    members.push(member("body", BodyValue::Text(encoded)));
    assert(body_view(members@) =~= seq![("body"@, BodyView::Text(crate::http_mapping::base64_encoded(body@)))]);
    let base = user_path_text(target);
    let path = join2(base.as_str(), "/messages");
    Ok(HttpRequest { method: HttpMethod::Post, path, token: String::from_str(token), body: Some(members), statuses: statuses2(200, 201) })
}

/// What is wrong with a packet sent over HTTP, in the order it is checked.
pub open spec fn http_packet_problem(target_node_id: i64, relay_target: UserRef, body: Seq<u8>, mode: DeliveryMode) -> Option<Seq<char>> {
    if target_node_id <= 0 {
        Some("target_node_id is required"@)
    } else if crate::validation::user_ref_check(relay_target, "relay_target"@) is Some {
        crate::validation::user_ref_check(relay_target, "relay_target"@)
    } else if mode == DeliveryMode::Unspecified {
        Some("invalid delivery_mode \"\""@)
    } else if target_node_id != relay_target.node_id {
        Some("target node ID "@ + decimal_int(target_node_id as int) + " does not match target user node_id "@
            + decimal_int(relay_target.node_id as int))
    } else if body.len() == 0 {
        Some("body is required"@)
    } else {
        None
    }
}

/// Posts a transient packet (POST `/nodes/N/users/U/messages`, answered 202)
/// with its body as base64 text and its delivery mode's name.
pub fn post_packet_request(
    token: &str,
    target_node_id: i64,
    relay_target: &UserRef,
    body: &Vec<u8>,
    mode: DeliveryMode,
) -> (r: Result<HttpRequest, Error>)
    requires
        body@.len() <= usize::MAX / 2,
    ensures
        match http_packet_problem(target_node_id, *relay_target, body@, mode) {
            Some(m) => r matches Err(e) && is_validation(e, m),
            None => r matches Ok(q) && request_is(
                q,
                HttpMethod::Post,
                user_path(*relay_target) + "/messages"@,
                token@,
                seq![202u16],
            ) && body_is(
                q,
                seq![
                    ("body"@, BodyView::Text(crate::http_mapping::base64_encoded(body@))),
                    ("delivery_kind"@, BodyView::Text("transient"@)),
                    ("delivery_mode"@, BodyView::Text(crate::types::delivery_mode_name(mode))),
                ],
            ),
        },
{
    proof {
        reveal_strlit("target_node_id");
        reveal_strlit(" is required");
        reveal_strlit("target_node_id is required");
        assert("target_node_id"@ + " is required"@ =~= "target_node_id is required"@);
    }
    validate_positive_i64(target_node_id, "target_node_id")?;
    crate::validation::validate_user_ref(relay_target, "relay_target")?;
    crate::validation::validate_delivery_mode(mode)?;
    if target_node_id != relay_target.node_id {
        let a = i64_to_decimal(target_node_id);
        let b = i64_to_decimal(relay_target.node_id);
        let m = join4("target node ID ", a.as_str(), " does not match target user node_id ", b.as_str());
        return Err(Error::validation(m.as_str()));
    }
    if body.len() == 0 {
        return Err(Error::validation("body is required"));
    }
    let encoded = base64_encode(body);
    let mut members: Vec<(String, BodyValue)> = Vec::new();
    members.push(member("body", BodyValue::Text(encoded)));
    members.push(member("delivery_kind", BodyValue::Text(String::from_str("transient"))));
    members.push(member("delivery_mode", BodyValue::Text(String::from_str(mode.as_str()))));
    assert(body_view(members@) =~= seq![
        ("body"@, BodyView::Text(crate::http_mapping::base64_encoded(body@))),
        ("delivery_kind"@, BodyView::Text("transient"@)),
        ("delivery_mode"@, BodyView::Text(crate::types::delivery_mode_name(mode))),
    ]);
    let base = user_path_text(relay_target);
    let path = join2(base.as_str(), "/messages");
    Ok(HttpRequest { method: HttpMethod::Post, path, token: String::from_str(token), body: Some(members), statuses: statuses1(202) })
}

// ----- cluster, events, operations -----

fn get_request(token: &str, path: &str) -> (r: HttpRequest)
    ensures
        request_is(r, HttpMethod::Get, path@, token@, seq![200u16]),
        r.body is None,
{
    HttpRequest {
        method: HttpMethod::Get,
        path: String::from_str(path),
        token: String::from_str(token),
        body: None,
        statuses: statuses1(200),
    }
}

/// Lists the cluster's nodes (GET `/cluster/nodes`).
pub fn list_cluster_nodes_request(token: &str) -> (r: HttpRequest)
    ensures
        request_is(r, HttpMethod::Get, "/cluster/nodes"@, token@, seq![200u16]),
        r.body is None,
{
    get_request(token, "/cluster/nodes")
}

/// A node's logged-in users (GET `/cluster/nodes/N/logged-in-users`); the node
/// ID must be positive.
pub fn list_node_logged_in_users_request(token: &str, node_id: i64) -> (r: Result<HttpRequest, Error>)
    ensures
        node_id <= 0 ==> (r matches Err(e) && is_validation(e, "node_id is required"@)),
        node_id > 0 ==> (r matches Ok(q) && request_is(
            q,
            HttpMethod::Get,
            "/cluster/nodes/"@ + decimal_int(node_id as int) + "/logged-in-users"@,
            token@,
            seq![200u16],
        ) && q.body is None),
{
    proof {
        reveal_strlit("node_id");
        reveal_strlit(" is required");
        reveal_strlit("node_id is required");
        assert("node_id"@ + " is required"@ =~= "node_id is required"@);
    }
    validate_positive_i64(node_id, "node_id")?;
    let n = i64_to_decimal(node_id);
    let path = join3("/cluster/nodes/", n.as_str(), "/logged-in-users");
    Ok(get_request(token, path.as_str()))
}

/// The query of an event listing: `after=` when not 0, `limit=` when positive.
pub open spec fn events_params(after: i64, limit: i32) -> Seq<Seq<char>> {
    (if after != 0 { seq!["after="@ + decimal_int(after as int)] } else { Seq::empty() })
        + (if limit > 0 { seq!["limit="@ + decimal_int(limit as int)] } else { Seq::empty() })
}

/// Lists events (GET `/events`).
pub fn list_events_request(token: &str, after: i64, limit: i32) -> (r: HttpRequest)
    ensures
        request_is(r, HttpMethod::Get, "/events"@ + query_suffix(events_params(after, limit)), token@, seq![200u16]),
        r.body is None,
{
    let mut query = String::new();
    let mut count: usize = 0;
    let ghost mut ps: Seq<Seq<char>> = Seq::empty();
    if after != 0 {
        let n = i64_to_decimal(after);
        let p = join2("after=", n.as_str());
        push_param(&mut query, &mut count, p.as_str(), Ghost(ps));
        proof {
            ps = ps.push(p@);
        }
    }
    if limit > 0 {
        let n = i64_to_decimal(limit as i64);
        let p = join2("limit=", n.as_str());
        push_param(&mut query, &mut count, p.as_str(), Ghost(ps));
        proof {
            ps = ps.push(p@);
        }
    }
    proof {
        assert(ps =~= events_params(after, limit));
    }
    let path = join2("/events", query.as_str());
    get_request(token, path.as_str())
}

/// The node's operational state (GET `/ops/status`).
pub fn operations_status_request(token: &str) -> (r: HttpRequest)
    ensures
        request_is(r, HttpMethod::Get, "/ops/status"@, token@, seq![200u16]),
        r.body is None,
{
    get_request(token, "/ops/status")
}

/// The node's metrics text (GET `/metrics`).
pub fn metrics_request(token: &str) -> (r: HttpRequest)
    ensures
        request_is(r, HttpMethod::Get, "/metrics"@, token@, seq![200u16]),
        r.body is None,
{
    get_request(token, "/metrics")
}

// ----- attachments -----

/// `/nodes/N/users/U/attachments/TYPE/SN/SU`.
pub open spec fn attachment_path(owner: UserRef, subject: UserRef, t: AttachmentType) -> Seq<char> {
    user_path(owner) + "/attachments/"@ + crate::types::attachment_type_name(t) + "/"@ + decimal_int(
        subject.node_id as int,
    ) + "/"@ + decimal_int(subject.user_id as int)
}

fn attachment_path_text(owner: &UserRef, subject: &UserRef, t: AttachmentType) -> (r: String)
    ensures
        r@ == attachment_path(*owner, *subject, t),
{
    let base = user_path_text(owner);
    let a = join3(base.as_str(), "/attachments/", t.as_str());
    let n = i64_to_decimal(subject.node_id);
    let u = i64_to_decimal(subject.user_id);
    let b = join4(a.as_str(), "/", n.as_str(), "/");
    join2(b.as_str(), u.as_str())
}

/// What is wrong with an attachment to write, in the order it is checked.
pub open spec fn upsert_attachment_problem(owner: UserRef, subject: UserRef, config: Seq<u8>) -> Option<Seq<char>> {
    if crate::requests::pair_problem(owner, subject) is Some {
        crate::requests::pair_problem(owner, subject)
    } else if config.len() > 0 && json_parse_error(config) is Some {
        Some("config_json must be valid JSON: "@ + json_parse_error(config)->0)
    } else {
        None
    }
}

/// Writes an attachment (PUT on its path) with its configuration; an empty
/// configuration is sent as `{}`, another must be JSON.
pub fn upsert_attachment_request(
    token: &str,
    owner: &UserRef,
    subject: &UserRef,
    attachment_type: AttachmentType,
    config_json: Vec<u8>,
) -> (r: Result<HttpRequest, Error>)
    ensures
        match upsert_attachment_problem(*owner, *subject, config_json@) {
            Some(m) => r matches Err(e) && is_validation(e, m),
            None => r matches Ok(q) && request_is(
                q,
                HttpMethod::Put,
                attachment_path(*owner, *subject, attachment_type),
                token@,
                seq![200u16, 201u16],
            ) && body_is(
                q,
                seq![
                    (
                        "config_json"@,
                        if config_json@.len() == 0 {
                            BodyView::EmptyObject
                        } else {
                            BodyView::Json(config_json@)
                        },
                    ),
                ],
            ),
        },
{
    proof {
        reveal_strlit("config_json");
        reveal_strlit(" must be valid JSON: ");
        reveal_strlit("config_json must be valid JSON: ");
        assert("config_json"@ + " must be valid JSON: "@ =~= "config_json must be valid JSON: "@);
    }
    crate::validation::validate_user_ref(owner, "owner")?;
    crate::validation::validate_user_ref(subject, "subject")?;
    let ghost config = config_json@;
    let value = if config_json.len() == 0 {
        BodyValue::EmptyObject
    } else {
        json_bytes_to_value(config_json, "config_json")?
    };
    let mut members: Vec<(String, BodyValue)> = Vec::new();
    members.push(member("config_json", value));
    assert(body_view(members@) =~= seq![
        (
            "config_json"@,
            if config.len() == 0 {
                BodyView::EmptyObject
            } else {
                BodyView::Json(config)
            },
        ),
    ]);
    Ok(
        HttpRequest {
            method: HttpMethod::Put,
            path: attachment_path_text(owner, subject, attachment_type),
            token: String::from_str(token),
            body: Some(members),
            statuses: statuses2(200, 201),
        },
    )
}

/// Deletes an attachment (DELETE on its path).
pub fn delete_attachment_request(
    token: &str,
    owner: &UserRef,
    subject: &UserRef,
    attachment_type: AttachmentType,
) -> (r: Result<HttpRequest, Error>)
    ensures
        match crate::requests::pair_problem(*owner, *subject) {
            Some(m) => r matches Err(e) && is_validation(e, m),
            None => r matches Ok(q) && request_is(
                q,
                HttpMethod::Delete,
                attachment_path(*owner, *subject, attachment_type),
                token@,
                seq![200u16],
            ) && q.body is None,
        },
{
    crate::validation::validate_user_ref(owner, "owner")?;
    crate::validation::validate_user_ref(subject, "subject")?;
    Ok(
        HttpRequest {
            method: HttpMethod::Delete,
            path: attachment_path_text(owner, subject, attachment_type),
            token: String::from_str(token),
            body: None,
            statuses: statuses1(200),
        },
    )
}

/// Lists an owner's attachments (GET `/nodes/N/users/U/attachments`), of one
/// type when given.
pub fn list_attachments_request(token: &str, owner: &UserRef, attachment_type: Option<AttachmentType>) -> (r:
    Result<HttpRequest, Error>)
    ensures
        match crate::validation::user_ref_check(*owner, "owner"@) {
            Some(m) => r matches Err(e) && is_validation(e, m),
            None => r matches Ok(q) && request_is(
                q,
                HttpMethod::Get,
                user_path(*owner) + "/attachments"@ + match attachment_type {
                    Some(t) => "?attachment_type="@ + crate::types::attachment_type_name(t),
                    None => Seq::empty(),
                },
                token@,
                seq![200u16],
            ) && q.body is None,
        },
{
    crate::validation::validate_user_ref(owner, "owner")?;
    let base = user_path_text(owner);
    let path = match attachment_type {
        Some(t) => join3(base.as_str(), "/attachments?attachment_type=", t.as_str()),
        None => join2(base.as_str(), "/attachments"),
    };
    proof {
        reveal_strlit("/attachments?attachment_type=");
        reveal_strlit("/attachments");
        reveal_strlit("?attachment_type=");
        assert("/attachments"@ + "?attachment_type="@ =~= "/attachments?attachment_type="@);
        assert(path@ =~= user_path(*owner) + "/attachments"@ + match attachment_type {
            Some(t) => "?attachment_type="@ + crate::types::attachment_type_name(t),
            None => Seq::empty(),
        });
    }
    Ok(get_request(token, path.as_str()))
}

// ----- reading answers -----

/// The answer is an object whose members `m` satisfy `ok`, read with `reader`.
pub open spec fn object_answer<T>(v: JsonValue, r: Result<T, Error>, ok: spec_fn(T, Seq<JsonMember>) -> bool, problem: spec_fn(Seq<JsonMember>) -> Option<Seq<char>>) -> bool {
    match v {
        JsonValue::Object(m) => match problem(m@) {
            Some(msg) => r matches Err(e) && is_protocol(e, msg),
            None => r matches Ok(x) && ok(x, m@),
        },
        _ => r matches Err(e) && is_protocol(e, "unexpected JSON object"@),
    }
}

/// An answer object is never refused for its members alone: missing fields read as defaults.
pub open spec fn no_object_problem(m: Seq<JsonMember>) -> Option<Seq<char>> {
    None
}

/// Reads a user answer.
pub fn user_response(value: &JsonValue) -> (r: Result<User, Error>)
    ensures
        object_answer(*value, r, |u: User, m: Seq<JsonMember>| crate::http_mapping::user_json(u, m), |m: Seq<JsonMember>| no_object_problem(m)),
{
    let m = expect_object(value)?;
    crate::http_mapping::user_from_http(m)
}

/// Reads a user deletion answer.
pub fn delete_user_response(value: &JsonValue) -> (r: Result<DeleteUserResult, Error>)
    ensures
        object_answer(*value, r, |x: DeleteUserResult, m: Seq<JsonMember>| crate::http_mapping::delete_user_result_json(x, m), |m: Seq<JsonMember>| no_object_problem(m)),
{
    let m = expect_object(value)?;
    crate::http_mapping::delete_user_result_from_http(m)
}

/// Reads a metadata answer.
pub fn user_metadata_response(value: &JsonValue) -> (r: Result<UserMetadata, Error>)
    ensures
        object_answer(*value, r, |x: UserMetadata, m: Seq<JsonMember>| crate::http_mapping::metadata_json(x, m), |m: Seq<JsonMember>| crate::http_mapping::metadata_problem(m)),
{
    let m = expect_object(value)?;
    crate::http_mapping::user_metadata_from_http(m)
}

/// Reads a posted message.
pub fn message_response(value: &JsonValue) -> (r: Result<Message, Error>)
    ensures
        object_answer(*value, r, |x: Message, m: Seq<JsonMember>| crate::http_mapping::message_json(x, m), |m: Seq<JsonMember>| crate::http_mapping::message_problem(m)),
{
    let m = expect_object(value)?;
    crate::http_mapping::message_from_http(m)
}

/// Reads a packet's acceptance.
pub fn relay_accepted_response(value: &JsonValue) -> (r: Result<RelayAccepted, Error>)
    ensures
        object_answer(*value, r, |x: RelayAccepted, m: Seq<JsonMember>| crate::http_mapping::relay_accepted_json(x, m), |m: Seq<JsonMember>| no_object_problem(m)),
{
    let m = expect_object(value)?;
    crate::http_mapping::relay_accepted_from_http(m)
}

/// Reads an attachment answer.
pub fn attachment_response(value: &JsonValue) -> (r: Result<Attachment, Error>)
    ensures
        object_answer(*value, r, |x: Attachment, m: Seq<JsonMember>| crate::http_mapping::attachment_json(x, m), |m: Seq<JsonMember>| crate::http_mapping::attachment_problem(m)),
{
    let m = expect_object(value)?;
    crate::http_mapping::attachment_from_http(m)
}

/// Reads an operations status answer.
pub fn operations_status_response(value: &JsonValue) -> (r: Result<OperationsStatus, Error>)
    ensures
        object_answer(*value, r, |x: OperationsStatus, m: Seq<JsonMember>| crate::http_mapping::operations_status_json(x, m), |m: Seq<JsonMember>| crate::http_mapping::operations_status_problem(m)),
{
    let m = expect_object(value)?;
    crate::http_mapping::operations_status_from_http(m)
}

/// Reads a metadata scan answer.
pub fn scan_user_metadata_response(value: &JsonValue) -> (r: Result<UserMetadataScanResult, Error>)
    ensures
        match *value {
            JsonValue::Object(m) => crate::http_mapping::scan_result_matches(m@, r),
            _ => r matches Err(e) && is_protocol(e, "unexpected JSON object"@),
        },
{
    let m = expect_object(value)?;
    crate::http_mapping::user_metadata_scan_result_from_http(m)
}

/// Reads a list answer of User items: the answer itself when it is an
/// array, else the array under "items".
pub fn users_response(value: &JsonValue) -> (r: Result<Vec<User>, Error>)
    ensures
        match crate::json::payload_items(*value, seq!["items"@]) {
            Some(items) => {
                &&& crate::http_mapping::no_problem(crate::http_mapping::object_problems(items)) ==> (r matches Ok(out)
                    && out@.len() == items.len() && forall|i: int| 0 <= i < items.len()
                    ==> crate::http_mapping::user_item(#[trigger] out@[i], items[i]))
                &&& crate::http_mapping::list_failed(r, crate::http_mapping::object_problems(items))
            },
            None => r matches Err(e) && (if *value is Object {
                is_protocol(e, "missing items in list response"@)
            } else {
                is_protocol(e, "unexpected JSON object"@)
            }),
        },
{
    let keys = ["items"];
    proof {
        assert(crate::json::key_views(keys@) =~= seq!["items"@]);
    }
    let items = crate::json::items_from_payload(value, &keys)?;
    crate::http_mapping::users_from_http(items)
}

/// Reads a list answer of Message items: the answer itself when it is an
/// array, else the array under "items".
pub fn messages_response(value: &JsonValue) -> (r: Result<Vec<Message>, Error>)
    ensures
        match crate::json::payload_items(*value, seq!["items"@]) {
            Some(items) => {
                &&& crate::http_mapping::no_problem(crate::http_mapping::message_problems(items)) ==> (r matches Ok(out)
                    && out@.len() == items.len() && forall|i: int| 0 <= i < items.len()
                    ==> crate::http_mapping::message_item(#[trigger] out@[i], items[i]))
                &&& crate::http_mapping::list_failed(r, crate::http_mapping::message_problems(items))
            },
            None => r matches Err(e) && (if *value is Object {
                is_protocol(e, "missing items in list response"@)
            } else {
                is_protocol(e, "unexpected JSON object"@)
            }),
        },
{
    let keys = ["items"];
    proof {
        assert(crate::json::key_views(keys@) =~= seq!["items"@]);
    }
    let items = crate::json::items_from_payload(value, &keys)?;
    crate::http_mapping::messages_from_http(items)
}

/// Reads a list answer of Attachment items: the answer itself when it is an
/// array, else the array under "items".
pub fn attachments_response(value: &JsonValue) -> (r: Result<Vec<Attachment>, Error>)
    ensures
        match crate::json::payload_items(*value, seq!["items"@]) {
            Some(items) => {
                &&& crate::http_mapping::no_problem(crate::http_mapping::attachment_problems(items)) ==> (r matches Ok(out)
                    && out@.len() == items.len() && forall|i: int| 0 <= i < items.len()
                    ==> crate::http_mapping::attachment_item(#[trigger] out@[i], items[i]))
                &&& crate::http_mapping::list_failed(r, crate::http_mapping::attachment_problems(items))
            },
            None => r matches Err(e) && (if *value is Object {
                is_protocol(e, "missing items in list response"@)
            } else {
                is_protocol(e, "unexpected JSON object"@)
            }),
        },
{
    let keys = ["items"];
    proof {
        assert(crate::json::key_views(keys@) =~= seq!["items"@]);
    }
    let items = crate::json::items_from_payload(value, &keys)?;
    crate::http_mapping::attachments_from_http(items)
}

/// Reads a list answer of Event items: the answer itself when it is an
/// array, else the array under "items".
pub fn events_response(value: &JsonValue) -> (r: Result<Vec<Event>, Error>)
    ensures
        match crate::json::payload_items(*value, seq!["items"@]) {
            Some(items) => {
                &&& crate::http_mapping::no_problem(crate::http_mapping::object_problems(items)) ==> (r matches Ok(out)
                    && out@.len() == items.len() && forall|i: int| 0 <= i < items.len()
                    ==> crate::http_mapping::event_item(#[trigger] out@[i], items[i]))
                &&& crate::http_mapping::list_failed(r, crate::http_mapping::object_problems(items))
            },
            None => r matches Err(e) && (if *value is Object {
                is_protocol(e, "missing items in list response"@)
            } else {
                is_protocol(e, "unexpected JSON object"@)
            }),
        },
{
    let keys = ["items"];
    proof {
        assert(crate::json::key_views(keys@) =~= seq!["items"@]);
    }
    let items = crate::json::items_from_payload(value, &keys)?;
    crate::http_mapping::events_from_http(items)
}

/// Reads a list answer of ClusterNode items: the answer itself when it is an
/// array, else the array under "nodes", "items".
pub fn cluster_nodes_response(value: &JsonValue) -> (r: Result<Vec<ClusterNode>, Error>)
    ensures
        match crate::json::payload_items(*value, seq!["nodes"@, "items"@]) {
            Some(items) => {
                &&& crate::http_mapping::no_problem(crate::http_mapping::object_problems(items)) ==> (r matches Ok(out)
                    && out@.len() == items.len() && forall|i: int| 0 <= i < items.len()
                    ==> crate::http_mapping::cluster_node_item(#[trigger] out@[i], items[i]))
                &&& crate::http_mapping::list_failed(r, crate::http_mapping::object_problems(items))
            },
            None => r matches Err(e) && (if *value is Object {
                is_protocol(e, "missing items in list response"@)
            } else {
                is_protocol(e, "unexpected JSON object"@)
            }),
        },
{
    let keys = ["nodes", "items"];
    proof {
        assert(crate::json::key_views(keys@) =~= seq!["nodes"@, "items"@]);
    }
    let items = crate::json::items_from_payload(value, &keys)?;
    crate::http_mapping::cluster_nodes_from_http(items)
}

/// Reads a list answer of LoggedInUser items: the answer itself when it is an
/// array, else the array under "items".
pub fn logged_in_users_response(value: &JsonValue) -> (r: Result<Vec<LoggedInUser>, Error>)
    ensures
        match crate::json::payload_items(*value, seq!["items"@]) {
            Some(items) => {
                &&& crate::http_mapping::no_problem(crate::http_mapping::object_problems(items)) ==> (r matches Ok(out)
                    && out@.len() == items.len() && forall|i: int| 0 <= i < items.len()
                    ==> crate::http_mapping::logged_in_user_item(#[trigger] out@[i], items[i]))
                &&& crate::http_mapping::list_failed(r, crate::http_mapping::object_problems(items))
            },
            None => r matches Err(e) && (if *value is Object {
                is_protocol(e, "missing items in list response"@)
            } else {
                is_protocol(e, "unexpected JSON object"@)
            }),
        },
{
    let keys = ["items"];
    proof {
        assert(crate::json::key_views(keys@) =~= seq!["items"@]);
    }
    let items = crate::json::items_from_payload(value, &keys)?;
    crate::http_mapping::logged_in_users_from_http(items)
}

// ----- login with a plain password -----

/// A `password` member holding a bcrypt hash of `plain` at the default cost.
pub open spec fn is_bcrypt_member(m: (Seq<char>, BodyView), plain: Seq<char>) -> bool {
    &&& m.0 == "password"@
    &&& m.1 matches BodyView::Text(h) && crate::password::is_bcrypt_hash_of(plain, h)
}

/// Logs in by node and user ID with a plain password, hashed here first: an
/// empty password is refused, a failed hash is a `bcrypt` connection error;
/// then as `login_with_password_request`.
pub fn login_request(node_id: i64, user_id: i64, password: &str) -> (r: Result<HttpRequest, Error>)
    ensures
        password@.len() == 0 ==> (r matches Err(e) && is_validation(e, "password is required"@)),
        password@.len() > 0 ==> match r {
            Ok(q) => {
                &&& node_id > 0 && user_id > 0
                &&& request_is(q, HttpMethod::Post, "/auth/login"@, Seq::empty(), seq![200u16])
                &&& q.body matches Some(b) && body_view(b@).len() == 3 && body_view(b@)[0] == (
                    "node_id"@,
                    BodyView::Int(node_id),
                ) && body_view(b@)[1] == ("user_id"@, BodyView::Int(user_id)) && is_bcrypt_member(
                    body_view(b@)[2],
                    password@,
                )
            },
            Err(e) => (e matches Error::Connection(c) && c.op@ == "bcrypt"@) || (node_id <= 0
                && is_validation(e, "node_id is required"@)) || (node_id > 0 && user_id <= 0
                && is_validation(e, "user_id is required"@)),
        },
{
    let p = crate::password::plain_password(password)?;
    login_with_password_request(node_id, user_id, &p)
}

/// Logs in by login name with a plain password, hashed here first.
pub fn login_by_login_name_request(login_name: &str, password: &str) -> (r: Result<HttpRequest, Error>)
    ensures
        password@.len() == 0 ==> (r matches Err(e) && is_validation(e, "password is required"@)),
        password@.len() > 0 ==> match r {
            Ok(q) => {
                &&& !crate::text::is_blank(login_name@)
                &&& request_is(q, HttpMethod::Post, "/auth/login"@, Seq::empty(), seq![200u16])
                &&& q.body matches Some(b) && body_view(b@).len() == 2 && body_view(b@)[0] == (
                    "login_name"@,
                    BodyView::Text(trim_spec(login_name@)),
                ) && is_bcrypt_member(body_view(b@)[1], password@)
            },
            Err(e) => (e matches Error::Connection(c) && c.op@ == "bcrypt"@) || (crate::text::is_blank(login_name@)
                && is_validation(e, "login_name is required"@)),
        },
{
    let p = crate::password::plain_password(password)?;
    login_by_login_name_with_password_request(login_name, &p)
}

/// The codes of refused statuses: 400 `bad_request`, 401 `unauthorized`, 403
/// `forbidden`, 404 `not_found`, 409 `conflict`, 422 `unprocessable_entity`,
/// 429 `too_many_requests`, 500 `internal_error`, 503 `service_unavailable`,
/// any other `http_error`.
pub proof fn law_status_code_names(status: u16)
    ensures
        status_code_name(400) == "bad_request"@,
        status_code_name(401) == "unauthorized"@,
        status_code_name(403) == "forbidden"@,
        status_code_name(404) == "not_found"@,
        status_code_name(409) == "conflict"@,
        status_code_name(422) == "unprocessable_entity"@,
        status_code_name(429) == "too_many_requests"@,
        status_code_name(500) == "internal_error"@,
        status_code_name(503) == "service_unavailable"@,
        status != 400 && status != 401 && status != 403 && status != 404 && status != 409 && status != 422
            && status != 429 && status != 500 && status != 503 ==> status_code_name(status) == "http_error"@,
{
}

/// The paths: a user is `/nodes/{node_id}/users/{user_id}` in decimal, and a
/// metadata entry is `/metadata/{key}` under its owner's path.
pub proof fn law_paths(u: UserRef, key: Seq<char>)
    ensures
        user_path(u) == "/nodes/"@ + decimal_int(u.node_id as int) + "/users/"@ + decimal_int(u.user_id as int),
        metadata_path(u, key) == "/nodes/"@ + decimal_int(u.node_id as int) + "/users/"@ + decimal_int(
            u.user_id as int,
        ) + "/metadata/"@ + key,
{
}

/// A user body sends each field given under its own name: `username`,
/// `role`, `login_name`, `password` (the encoded value) and `profile` (the
/// profile JSON); the creation body starts with the username and the role.
pub proof fn law_user_body_fields(c: CreateUserRequest, u: UpdateUserRequest)
    ensures
        create_user_body(c).len() >= 2,
        create_user_body(c)[0] == ("username"@, BodyView::Text(c.username@)),
        create_user_body(c)[1] == ("role"@, BodyView::Text(c.role@)),
        c.password matches Some(p) ==> create_user_body(c).contains(
            ("password"@, BodyView::Text(p.spec_encoded())),
        ),
        c.profile_json@.len() > 0 ==> create_user_body(c).contains(("profile"@, BodyView::Json(c.profile_json@))),
        u.username matches Some(x) ==> update_user_body(u).contains(("username"@, BodyView::Text(x@))),
        u.login_name matches Some(x) ==> update_user_body(u).contains(
            ("login_name"@, BodyView::Text(trim_spec(x@))),
        ),
        u.password matches Some(p) ==> update_user_body(u).contains(
            ("password"@, BodyView::Text(p.spec_encoded())),
        ),
        u.profile_json matches Some(x) ==> update_user_body(u).contains(("profile"@, BodyView::Json(x@))),
        u.role matches Some(x) ==> update_user_body(u).contains(("role"@, BodyView::Text(x@))),
{
    let cb = create_user_body(c);
    match c.password {
        Some(p) => {
            let login_name = match crate::requests::create_login_name(c.login_name) {
                Some(n) => seq![("login_name"@, BodyView::Text(n))],
                None => Seq::<(Seq<char>, BodyView)>::empty(),
            };
            let k = 2 + login_name.len();
            assert(cb[k as int] == ("password"@, BodyView::Text(p.spec_encoded())));
        },
        None => {},
    }
    if c.profile_json@.len() > 0 {
        assert(cb[cb.len() - 1] == ("profile"@, BodyView::Json(c.profile_json@)));
    }
    let ub = update_user_body(u);
    let a = match u.username { Some(x) => seq![("username"@, BodyView::Text(x@))], None => Seq::<(Seq<char>, BodyView)>::empty() };
    let b = match u.login_name { Some(n) => seq![("login_name"@, BodyView::Text(trim_spec(n@)))], None => Seq::<(Seq<char>, BodyView)>::empty() };
    let pw = match u.password { Some(p) => seq![("password"@, BodyView::Text(p.spec_encoded()))], None => Seq::<(Seq<char>, BodyView)>::empty() };
    let pr = match u.profile_json { Some(x) => seq![("profile"@, BodyView::Json(x@))], None => Seq::<(Seq<char>, BodyView)>::empty() };
    let ro = match u.role { Some(x) => seq![("role"@, BodyView::Text(x@))], None => Seq::<(Seq<char>, BodyView)>::empty() };
    assert(ub == a + b + pw + pr + ro);
    if u.username is Some {
        assert(ub[0] == a[0]);
    }
    if u.login_name is Some {
        assert(ub[a.len() as int] == b[0]);
    }
    if u.password is Some {
        assert(ub[(a.len() + b.len()) as int] == pw[0]);
    }
    if u.profile_json is Some {
        assert(ub[(a.len() + b.len() + pw.len()) as int] == pr[0]);
    }
    if u.role is Some {
        assert(ub[(a.len() + b.len() + pw.len() + pr.len()) as int] == ro[0]);
    }
}

} // verus!
