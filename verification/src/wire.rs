//! The wire data model: request and response payloads of the messaging
//! protocol, together with their mathematical views.
//!
//! Correlation identifiers are plain `u64` values and message text is a
//! sequence of characters, so that every field of every payload is visible
//! to the verifier.

use vstd::prelude::*;

verus! {

/// An outbound chat message: a correlation id chosen by the sender and the
/// message text.
#[derive(Debug, Clone)]
pub struct MessageRequest {
    pub uuid: u64,
    pub text: Vec<char>,
}

/// The mathematical view of a [`MessageRequest`].
pub struct MessageRequestV {
    pub uuid: u64,
    pub text: Seq<char>,
}

impl View for MessageRequest {
    type V = MessageRequestV;

    open spec fn view(&self) -> MessageRequestV {
        MessageRequestV { uuid: self.uuid, text: self.text@ }
    }
}

/// A read receipt for a room: marks the messages of that room as read.
#[derive(Debug, Clone, Copy, PartialEq, Eq, Structural)]
pub struct MarkMessagesReadRequest {
    pub room: u64,
}

/// The request envelope: everything the client ever writes to the socket.
#[derive(Debug, Clone)]
pub enum WireRequest {
    Message(MessageRequest),
    MessagesRead(MarkMessagesReadRequest),
}

/// The mathematical view of a [`WireRequest`].
pub enum WireRequestV {
    Message(MessageRequestV),
    MessagesRead(MarkMessagesReadRequest),
}

impl View for WireRequest {
    type V = WireRequestV;

    open spec fn view(&self) -> WireRequestV {
        match self {
            WireRequest::Message(m) => WireRequestV::Message(m@),
            WireRequest::MessagesRead(r) => WireRequestV::MessagesRead(*r),
        }
    }
}

/// An inbound chat message delivered by the server.
#[derive(Debug, Clone)]
pub struct MessageResponse {
    pub uuid: u64,
    pub text: Vec<char>,
}

/// The mathematical view of a [`MessageResponse`].
pub struct MessageResponseV {
    pub uuid: u64,
    pub text: Seq<char>,
}

impl View for MessageResponse {
    type V = MessageResponseV;

    open spec fn view(&self) -> MessageResponseV {
        MessageResponseV { uuid: self.uuid, text: self.text@ }
    }
}

/// The server's acknowledgement that a room's messages were marked read.
#[derive(Debug, Clone, Copy, PartialEq, Eq, Structural)]
pub struct MessagesReadResponse {
    pub room: u64,
}

/// A successful response payload.
#[derive(Debug, Clone)]
pub enum OkResponse {
    Message(MessageResponse),
    MessagesRead(MessagesReadResponse),
    MessageReceived(u64),
}

/// The mathematical view of an [`OkResponse`].
pub enum OkResponseV {
    Message(MessageResponseV),
    MessagesRead(MessagesReadResponse),
    MessageReceived(u64),
}

impl View for OkResponse {
    type V = OkResponseV;

    open spec fn view(&self) -> OkResponseV {
        match self {
            OkResponse::Message(m) => OkResponseV::Message(m@),
            OkResponse::MessagesRead(r) => OkResponseV::MessagesRead(*r),
            OkResponse::MessageReceived(u) => OkResponseV::MessageReceived(*u),
        }
    }
}

/// A protocol-level error payload echoed by the server.
#[derive(Debug, Clone, Copy, PartialEq, Eq, Structural)]
pub enum ErrorResponse {
    WrongFormat,
    WrongJsonFormat,
    MessageNotFound(u64),
    UserNotFound,
    Fatal,
    NotMemberOfRoom,
}

/// Append a literal to a text buffer.
pub(crate) fn push_lit(out: &mut Vec<char>, lit: &str)
    ensures
        final(out)@ == old(out)@ + lit@,
{
    let n: usize = lit.unicode_len();
    let mut j: usize = 0;
    while j < n
        invariant
            j <= n,
            n == lit@.len(),
            out@ == old(out)@ + lit@.take(j as int),
        decreases n - j,
    {
        let c = lit.get_char(j);
        out.push(c);
        proof {
            assert(lit@.take(j + 1 as int) =~= lit@.take(j as int).push(lit@[j as int]));
            assert(old(out)@ + lit@.take(j as int) + seq![c] =~= old(out)@ + lit@.take(
                j + 1 as int,
            ));
        }
        j += 1;
    }
    proof {
        assert(lit@.take(n as int) =~= lit@);
    }
}

/// Copy a text buffer.
pub fn clone_text(t: &Vec<char>) -> (r: Vec<char>)
    ensures
        r@ == t@,
{
    let mut r: Vec<char> = Vec::new();
    let n: usize = t.len();
    let mut j: usize = 0;
    while j < n
        invariant
            j <= n,
            n == t@.len(),
            r@ == t@.take(j as int),
        decreases n - j,
    {
        r.push(t[j]);
        proof {
            assert(t@.take(j + 1 as int) =~= t@.take(j as int).push(t@[j as int]));
        }
        j += 1;
    }
    proof {
        assert(t@.take(n as int) =~= t@);
    }
    r
}

} // verus!
