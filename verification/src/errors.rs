//! The presentation mapping: every error kind the client can meet — the
//! controller's own taxonomy and the error payloads of the surrounding
//! HTTP API — flattened onto exactly one user-facing message.
//!
//! The mapping is total, performs no recovery, and is the single place the
//! copy text changes.

use vstd::prelude::*;

use crate::codec::dec_digits;
use crate::codec::push_dec;
use crate::controller::Error;

verus! {

/// Relies on std's `String::push`: appends exactly the one character.
pub assume_specification[ String::push ](s: &mut String, c: char)
    ensures
        final(s)@ == old(s)@.push(c),
;

/// Build a `String` from a text buffer.
pub fn chars_to_string(t: &Vec<char>) -> (r: String)
    ensures
        r@ == t@,
{
    let mut r = String::new();
    let n: usize = t.len();
    let mut j: usize = 0;
    while j < n
        invariant
            j <= n,
            n == t@.len(),
            r@ == t@.take(j as int),
        decreases n - j,
    {
        r.push(t[j]);
        proof {
            assert(t@.take(j + 1 as int) =~= t@.take(j as int).push(t@[j as int]));
        }
        j += 1;
    }
    proof {
        assert(t@.take(n as int) =~= t@);
    }
    r
}

/// An error kind with its one user-facing message.
pub trait IntoErrorMessage: Sized {
    /// The message of this error kind.
    spec fn spec_error_message(self) -> Seq<char>;

    /// Flatten this error into its user-facing message; every kind has
    /// exactly one, and none is empty.
    fn into_error_message(self) -> (r: String)
        ensures
            r@ == self.spec_error_message(),
            r@.len() > 0,
    ;
}

impl IntoErrorMessage for Error {
    open spec fn spec_error_message(self) -> Seq<char> {
        match self {
            Error::Send => "Send error"@,
            Error::Connection => "Connection error"@,
            Error::Disconnected => "Disconnected"@,
            Error::Deserialization => "Deserialization error"@,
            Error::Serialization => "Serialization error"@,
            Error::Unknown => "Unknown error"@,
            Error::WrongRequestFormat => "Wrong request format"@,
            Error::UserNotFound => "User not found"@,
            Error::MessageNotFound(_) => "Message not found"@,
            Error::NotMemberOfRoom => "User is a member of this chat"@,
        }
    }

    fn into_error_message(self) -> (r: String) {
        proof {
            reveal_strlit("Send error");
            reveal_strlit("Connection error");
            reveal_strlit("Disconnected");
            reveal_strlit("Deserialization error");
            reveal_strlit("Serialization error");
            reveal_strlit("Unknown error");
            reveal_strlit("Wrong request format");
            reveal_strlit("User not found");
            reveal_strlit("Message not found");
            reveal_strlit("User is a member of this chat");
        }
        match self {
            Error::Send => "Send error".to_owned(),
            Error::Connection => "Connection error".to_owned(),
            Error::Disconnected => "Disconnected".to_owned(),
            Error::Deserialization => "Deserialization error".to_owned(),
            Error::Serialization => "Serialization error".to_owned(),
            Error::Unknown => "Unknown error".to_owned(),
            Error::WrongRequestFormat => "Wrong request format".to_owned(),
            Error::UserNotFound => "User not found".to_owned(),
            Error::MessageNotFound(_) => "Message not found".to_owned(),
            Error::NotMemberOfRoom => "User is a member of this chat".to_owned(),
        }
    }
}

/// An HTTP API request failure, as the surrounding application's HTTP
/// client reports it; here only its kinds, so the mapping to copy text is
/// total and checked.
#[derive(Debug, Clone, Copy, PartialEq, Eq, Structural)]
pub enum RequestError {
    Deserialize,
    Builder,
    Http(u16),
    Timeout,
    Connect,
    Redirect,
    Unknown,
    Decode,
}

impl IntoErrorMessage for RequestError {
    open spec fn spec_error_message(self) -> Seq<char> {
        match self {
            RequestError::Deserialize => "Deserialization error"@,
            RequestError::Builder => "Request builder error"@,
            RequestError::Http(status) => "Http error: "@ + dec_digits(status as nat),
            RequestError::Timeout => "Request timeout"@,
            RequestError::Connect => "Connection error"@,
            RequestError::Redirect => "Redirect error"@,
            RequestError::Unknown => "Unknown error"@,
            RequestError::Decode => "Deserialization error"@,
        }
    }

    fn into_error_message(self) -> (r: String) {
        proof {
            reveal_strlit("Deserialization error");
            reveal_strlit("Request builder error");
            reveal_strlit("Http error: ");
            reveal_strlit("Request timeout");
            reveal_strlit("Connection error");
            reveal_strlit("Redirect error");
            reveal_strlit("Unknown error");
        }
        match self {
            RequestError::Deserialize => "Deserialization error".to_owned(),
            RequestError::Builder => "Request builder error".to_owned(),
            RequestError::Http(status) => {
                let mut text: Vec<char> = Vec::new();
                crate::wire::push_lit(&mut text, "Http error: ");
                push_dec(&mut text, status as u64);
                let r = chars_to_string(&text);
                proof {
                    crate::codec::lemma_dec_digits(status as nat);
                }
                r
            },
            RequestError::Timeout => "Request timeout".to_owned(),
            RequestError::Connect => "Connection error".to_owned(),
            RequestError::Redirect => "Redirect error".to_owned(),
            RequestError::Unknown => "Unknown error".to_owned(),
            RequestError::Decode => "Deserialization error".to_owned(),
        }
    }
}

/// An unexpected failure of an authenticated HTTP API call.
#[derive(Debug, Clone, Copy, PartialEq, Eq, Structural)]
pub enum AuthenticatedUnexpectedErrorResponse {
    InternalServerError,
    InvalidToken,
}

impl IntoErrorMessage for AuthenticatedUnexpectedErrorResponse {
    open spec fn spec_error_message(self) -> Seq<char> {
        match self {
            AuthenticatedUnexpectedErrorResponse::InternalServerError => "Server error"@,
            AuthenticatedUnexpectedErrorResponse::InvalidToken => "Invalid token"@,
        }
    }

    fn into_error_message(self) -> (r: String) {
        proof {
            reveal_strlit("Server error");
            reveal_strlit("Invalid token");
        }
        match self {
            AuthenticatedUnexpectedErrorResponse::InternalServerError => "Server error".to_owned(),
            AuthenticatedUnexpectedErrorResponse::InvalidToken => "Invalid token".to_owned(),
        }
    }
}

/// An unexpected failure of an unauthenticated HTTP API call.
#[derive(Debug, Clone, Copy, PartialEq, Eq, Structural)]
pub enum UnexpectedErrorResponse {
    InternalServerError,
}

impl IntoErrorMessage for UnexpectedErrorResponse {
    open spec fn spec_error_message(self) -> Seq<char> {
        match self {
            UnexpectedErrorResponse::InternalServerError => "Server error"@,
        }
    }

    fn into_error_message(self) -> (r: String) {
        proof {
            reveal_strlit("Server error");
        }
        match self {
            UnexpectedErrorResponse::InternalServerError => "Server error".to_owned(),
        }
    }
}

/// A rejected login.
#[derive(Debug, Clone, Copy, PartialEq, Eq, Structural)]
pub enum LoginErrorResponse {
    AccessDenied,
}

impl IntoErrorMessage for LoginErrorResponse {
    open spec fn spec_error_message(self) -> Seq<char> {
        match self {
            LoginErrorResponse::AccessDenied => "User not found"@,
        }
    }

    fn into_error_message(self) -> (r: String) {
        proof {
            reveal_strlit("User not found");
        }
        match self {
            LoginErrorResponse::AccessDenied => "User not found".to_owned(),
        }
    }
}

/// A failed message-history lookup.
#[derive(Debug, Clone, Copy, PartialEq, Eq, Structural)]
pub enum GetMessagesErrorResponse {
    RoomNotFound,
    AccessDenied,
    NotMemberOfRoom,
}

impl IntoErrorMessage for GetMessagesErrorResponse {
    open spec fn spec_error_message(self) -> Seq<char> {
        match self {
            GetMessagesErrorResponse::RoomNotFound => "User not found"@,
            GetMessagesErrorResponse::AccessDenied => "Access denied"@,
            GetMessagesErrorResponse::NotMemberOfRoom => "User is not member of chat"@,
        }
    }

    fn into_error_message(self) -> (r: String) {
        proof {
            reveal_strlit("User not found");
            reveal_strlit("Access denied");
            reveal_strlit("User is not member of chat");
        }
        match self {
            GetMessagesErrorResponse::RoomNotFound => "User not found".to_owned(),
            GetMessagesErrorResponse::AccessDenied => "Access denied".to_owned(),
            GetMessagesErrorResponse::NotMemberOfRoom => "User is not member of chat".to_owned(),
        }
    }
}

/// A failed room-list lookup.
#[derive(Debug, Clone, Copy, PartialEq, Eq, Structural)]
pub enum GetRoomsErrorResponse {
    UserNotFound,
}

impl IntoErrorMessage for GetRoomsErrorResponse {
    open spec fn spec_error_message(self) -> Seq<char> {
        match self {
            GetRoomsErrorResponse::UserNotFound => "User not found"@,
        }
    }

    fn into_error_message(self) -> (r: String) {
        proof {
            reveal_strlit("User not found");
        }
        match self {
            GetRoomsErrorResponse::UserNotFound => "User not found".to_owned(),
        }
    }
}

} // verus!
