use vstd::prelude::*;

use crate::conn::{CLOSE_CODE_ERROR, CLOSE_CODE_INVALID};
use vstd::string::StringExecFns;

verus! {

/// A failure of a JSON WebSocket connection.
#[derive(Debug)]
pub enum JsonWebsocketError {
    User(UserError),
    Internal(InternalError),
}

/// A failure caused by what the client sent.
#[derive(Debug)]
pub enum UserError {
    UnexpectedMsg,
}

/// A failure of the connection itself; outside failures are carried as
/// their message.
#[derive(Debug)]
pub enum InternalError {
    EndOfStream,
    Underlying(String),
    Json(String),
}

/// The text shown for a connection failure caused by the client.
pub open spec fn websocket_user_error_message(e: UserError) -> Seq<char> {
    match e {
        UserError::UnexpectedMsg =>
            "Encountered the wrong type of WebSocket message when expecting another."@,
    }
}

/// The text shown for a failure of the connection itself.
pub open spec fn websocket_internal_error_message(e: InternalError) -> Seq<char> {
    match e {
        InternalError::EndOfStream => "No next message available on WebSocket."@,
        InternalError::Underlying(m) => "Encountered an error from underlying websocket: "@ + m@
            + "."@,
        InternalError::Json(m) => "Encountered an underlying JSON serialization/deserialization error: "@
            + m@ + "."@,
    }
}

impl UserError {
    pub fn message(&self) -> (r: String)
        ensures
            r@ == websocket_user_error_message(*self),
    {
        "Encountered the wrong type of WebSocket message when expecting another.".to_owned()
    }
}

impl InternalError {
    pub fn message(&self) -> (r: String)
        ensures
            r@ == websocket_internal_error_message(*self),
    {
        match self {
            InternalError::EndOfStream => "No next message available on WebSocket.".to_owned(),
            InternalError::Underlying(m) => {
                let mut s = String::from_str("Encountered an error from underlying websocket: ");
                s.append(m.as_str());
                s.append(".");
                s
            },
            InternalError::Json(m) => {
                let mut s = String::from_str(
                    "Encountered an underlying JSON serialization/deserialization error: ",
                );
                s.append(m.as_str());
                s.append(".");
                s
            },
        }
    }
}

impl JsonWebsocketError {
    pub fn message(&self) -> (r: String)
        ensures
            r@ == match *self {
                JsonWebsocketError::User(u) => websocket_user_error_message(u),
                JsonWebsocketError::Internal(i) => websocket_internal_error_message(i),
            },
    {
        match self {
            JsonWebsocketError::User(u) => u.message(),
            JsonWebsocketError::Internal(i) => i.message(),
        }
    }
}

/// The close code sent when a connection is closed with a message: 1007 for
/// a failure of the client's, 1011 otherwise.
pub fn disconnect_close_code(user_error: bool) -> (r: u16)
    ensures
        r == if user_error {
            CLOSE_CODE_INVALID
        } else {
            CLOSE_CODE_ERROR
        },
{
    if user_error {
        CLOSE_CODE_INVALID
    } else {
        CLOSE_CODE_ERROR
    }
}

} // verus!
