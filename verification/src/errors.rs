//! The SDK's error model: one enum with a variant per failure class.

use vstd::prelude::*;

use crate::text::{decimal_nat, join2, join3, join4, text_eq, u64_to_decimal};

verus! {

/// A parameter handed to the SDK does not meet its requirements.
#[derive(Clone, Debug, PartialEq, Eq)]
pub struct ValidationError {
    /// Why the value was refused.
    pub message: String,
}

impl ValidationError {
    /// A validation error with the given message.
    pub fn new(message: &str) -> (r: Self)
        ensures
            r.message@ == message@,
    {
        ValidationError { message: String::from_str(message) }
    }
}

/// The client was closed with `close()`; a new client is needed.
#[derive(Clone, Debug, PartialEq, Eq)]
pub struct ClosedError;

/// No WebSocket connection is established yet.
#[derive(Clone, Debug, PartialEq, Eq)]
pub struct NotConnectedError;

/// The WebSocket connection dropped.
#[derive(Clone, Debug, PartialEq, Eq)]
pub struct DisconnectedError;

/// An error reported by the server.
#[derive(Clone, Debug, PartialEq, Eq)]
pub struct ServerError {
    /// Server-defined code such as `unauthorized` or `not_found`.
    pub code: String,
    /// The server's description.
    pub server_message: String,
    /// The request the error belongs to, 0 when it belongs to none.
    pub request_id: u64,
}

impl ServerError {
    /// A server error with the given code, message and request ID.
    pub fn new(code: &str, server_message: &str, request_id: u64) -> (r: Self)
        ensures
            r.code@ == code@,
            r.server_message@ == server_message@,
            r.request_id == request_id,
    {
        ServerError {
            code: String::from_str(code),
            server_message: String::from_str(server_message),
            request_id,
        }
    }

    /// Whether the code is `unauthorized`: the credentials or token were refused.
    pub fn unauthorized(&self) -> (r: bool)
        ensures
            r == (self.code@ == "unauthorized"@),
    {
        text_eq(self.code.as_str(), "unauthorized")
    }

    /// The error's text: `turntf server error: CODE (MESSAGE)`, followed by
    /// `, request_id=ID` when the request ID is not 0.
    pub fn describe(&self) -> (r: String)
        ensures
            r@ == server_error_text(self),
    {
        let head = join4("turntf server error: ", self.code.as_str(), " (", self.server_message.as_str());
        if self.request_id == 0 {
            join2(head.as_str(), ")")
        } else {
            let id = u64_to_decimal(self.request_id);
            join3(head.as_str(), "), request_id=", id.as_str())
        }
    }
}

/// The text of a server error.
pub open spec fn server_error_text(e: &ServerError) -> Seq<char> {
    let head = "turntf server error: "@ + e.code@ + " ("@ + e.server_message@;
    if e.request_id == 0 {
        head + ")"@
    } else {
        head + "), request_id="@ + decimal_nat(e.request_id as nat)
    }
}

/// The traffic did not follow the protocol (bad frame, missing field, unknown type).
#[derive(Clone, Debug, PartialEq, Eq)]
pub struct ProtocolError {
    /// What was wrong.
    pub protocol_message: String,
}

impl ProtocolError {
    /// A protocol error with the given message.
    pub fn new(message: &str) -> (r: Self)
        ensures
            r.protocol_message@ == message@,
    {
        ProtocolError { protocol_message: String::from_str(message) }
    }
}

/// Setting up or using the network connection failed.
#[derive(Clone, Debug, PartialEq, Eq)]
pub struct ConnectionError {
    /// The operation that failed, such as `dial`, `write` or `read`.
    pub op: String,
    /// Why it failed.
    pub cause: String,
}

impl ConnectionError {
    /// A connection error for operation `op`.
    pub fn new(op: &str, cause: &str) -> (r: Self)
        ensures
            r.op@ == op@,
            r.cause@ == cause@,
    {
        ConnectionError { op: String::from_str(op), cause: String::from_str(cause) }
    }
}

/// The local cursor store failed.
#[derive(Clone, Debug, PartialEq, Eq)]
pub struct StoreError {
    /// The store operation, such as `save_message` or `save_cursor`.
    pub op: String,
    /// Why it failed.
    pub message: String,
}

impl StoreError {
    /// A store error for operation `op`.
    pub fn new(op: &str, message: &str) -> (r: Self)
        ensures
            r.op@ == op@,
            r.message@ == message@,
    {
        StoreError { op: String::from_str(op), message: String::from_str(message) }
    }
}

/// Every error the SDK reports.
#[derive(Clone, Debug, PartialEq, Eq)]
pub enum Error {
    /// A parameter was refused before anything was sent.
    Validation(ValidationError),
    /// The client is closed.
    Closed(ClosedError),
    /// The client has no connection.
    NotConnected(NotConnectedError),
    /// The connection dropped.
    Disconnected(DisconnectedError),
    /// The server answered with an error.
    Server(ServerError),
    /// The traffic broke the protocol.
    Protocol(ProtocolError),
    /// The network failed.
    Connection(ConnectionError),
    /// The cursor store failed.
    Store(StoreError),
}

/// A validation error whose message is `m`.
pub open spec fn is_validation(e: Error, m: Seq<char>) -> bool {
    e matches Error::Validation(v) && v.message@ == m
}

/// A protocol error whose message is `m`.
pub open spec fn is_protocol(e: Error, m: Seq<char>) -> bool {
    e matches Error::Protocol(p) && p.protocol_message@ == m
}

/// A connection error for operation `op` with cause `c`.
pub open spec fn is_connection(e: Error, op: Seq<char>, c: Seq<char>) -> bool {
    e matches Error::Connection(x) && x.op@ == op && x.cause@ == c
}

/// A store error for operation `op` with message `m`.
pub open spec fn is_store(e: Error, op: Seq<char>, m: Seq<char>) -> bool {
    e matches Error::Store(x) && x.op@ == op && x.message@ == m
}

/// The text an error prints.
pub open spec fn error_text(e: Error) -> Seq<char> {
    match e {
        Error::Validation(v) => v.message@,
        Error::Closed(_) => "turntf client is closed"@,
        Error::NotConnected(_) => "turntf client is not connected"@,
        Error::Disconnected(_) => "turntf websocket disconnected"@,
        Error::Server(s) => server_error_text(&s),
        Error::Protocol(p) => "turntf protocol error: "@ + p.protocol_message@,
        Error::Connection(c) => "turntf connection error during "@ + c.op@ + ": "@ + c.cause@,
        Error::Store(s) => "turntf store error during "@ + s.op@ + ": "@ + s.message@,
    }
}

impl Error {
    /// A validation error with the given message.
    pub fn validation(message: &str) -> (r: Self)
        ensures
            is_validation(r, message@),
    {
        Error::Validation(ValidationError::new(message))
    }

    /// A protocol error with the given message.
    pub fn protocol(message: &str) -> (r: Self)
        ensures
            is_protocol(r, message@),
    {
        Error::Protocol(ProtocolError::new(message))
    }

    /// A connection error for operation `op`.
    pub fn connection(op: &str, cause: &str) -> (r: Self)
        ensures
            is_connection(r, op@, cause@),
    {
        Error::Connection(ConnectionError::new(op, cause))
    }

    /// A store error for operation `op`.
    pub fn store(op: &str, message: &str) -> (r: Self)
        ensures
            is_store(r, op@, message@),
    {
        Error::Store(StoreError::new(op, message))
    }

    /// The text this error prints.
    pub fn describe(&self) -> (r: String)
        ensures
            r@ == error_text(*self),
    {
        match self {
            Error::Validation(v) => String::from_str(v.message.as_str()),
            Error::Closed(_) => String::from_str("turntf client is closed"),
            Error::NotConnected(_) => String::from_str("turntf client is not connected"),
            Error::Disconnected(_) => String::from_str("turntf websocket disconnected"),
            Error::Server(s) => s.describe(),
            Error::Protocol(p) => join2("turntf protocol error: ", p.protocol_message.as_str()),
            Error::Connection(c) => join4(
                "turntf connection error during ",
                c.op.as_str(),
                ": ",
                c.cause.as_str(),
            ),
            Error::Store(s) => join4(
                "turntf store error during ",
                s.op.as_str(),
                ": ",
                s.message.as_str(),
            ),
        }
    }
}

/// The texts errors print: a validation error its message; the fixed texts of
/// a closed, unconnected or disconnected client; the others prefixed by their
/// kind, a server error with its code, message and (when not 0) request ID.
pub proof fn law_error_texts(e: Error, s: ServerError)
    ensures
        e matches Error::Validation(v) ==> error_text(e) == v.message@,
        e is Closed ==> error_text(e) == "turntf client is closed"@,
        e is NotConnected ==> error_text(e) == "turntf client is not connected"@,
        e is Disconnected ==> error_text(e) == "turntf websocket disconnected"@,
        e matches Error::Server(x) ==> error_text(e) == server_error_text(&x),
        e matches Error::Protocol(p) ==> error_text(e) == "turntf protocol error: "@ + p.protocol_message@,
        e matches Error::Connection(c) ==> error_text(e) == "turntf connection error during "@ + c.op@ + ": "@
            + c.cause@,
        e matches Error::Store(x) ==> error_text(e) == "turntf store error during "@ + x.op@ + ": "@
            + x.message@,
        s.request_id == 0 ==> server_error_text(&s) == "turntf server error: "@ + s.code@ + " ("@
            + s.server_message@ + ")"@,
        s.request_id != 0 ==> server_error_text(&s) == "turntf server error: "@ + s.code@ + " ("@
            + s.server_message@ + "), request_id="@ + decimal_nat(s.request_id as nat),
{
}

} // verus!
