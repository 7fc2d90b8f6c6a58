//! The connection: at most one live transport channel, failure-safe
//! operations, and deterministic teardown.
//!
//! The transport channel itself (socket, handshake, frame I/O) is owned by
//! the host; the connection records every transport outcome and is the sole
//! authority on the lifecycle state. A state of `Connected` stands for
//! "exactly one transport channel is held".

use vstd::prelude::*;

use crate::codec::decode_response;
use crate::codec::decode_response_spec;
use crate::codec::encode_request;
use crate::codec::encode_request_spec;
use crate::wire::ErrorResponse;
use crate::wire::OkResponse;
use crate::wire::OkResponseV;
use crate::wire::WireRequest;
use crate::wire::clone_text;
use crate::wire::push_lit;

verus! {

/// The connection lifecycle: `Disconnected` is the initial state and the
/// state after any failure or explicit disconnect.
#[derive(Debug, Clone, Copy, PartialEq, Eq, Structural)]
pub enum State {
    Connected,
    Disconnected,
}

/// Why writing a request to the socket failed.
#[derive(Debug, Clone, Copy, PartialEq, Eq, Structural)]
pub enum RequestSendError {
    Send,
    Disconnected,
    Serialization,
}

/// Why receiving the next response failed.
#[derive(Debug, Clone, Copy, PartialEq, Eq, Structural)]
pub enum ResponseReceiveError {
    Error,
    Deserialization,
    Disconnected,
}

/// A failed protocol upgrade handshake, with its human-readable cause.
#[derive(Debug, Clone)]
pub struct ConnectionError {
    pub cause: Vec<char>,
}

/// What the transport's read side produced: one text frame, a transport
/// fault, or the end of the stream.
#[derive(Debug, Clone)]
pub enum FrameEvent {
    Frame(Vec<char>),
    TransportError,
    Closed,
}

/// The mathematical view of a [`FrameEvent`].
pub enum FrameEventV {
    Frame(Seq<char>),
    TransportError,
    Closed,
}

impl View for FrameEvent {
    type V = FrameEventV;

    open spec fn view(&self) -> FrameEventV {
        match self {
            FrameEvent::Frame(f) => FrameEventV::Frame(f@),
            FrameEvent::TransportError => FrameEventV::TransportError,
            FrameEvent::Closed => FrameEventV::Closed,
        }
    }
}

/// The lifecycle state after one receive step: every receive failure —
/// a transport fault, an undecodable frame, or stream closure — tears the
/// connection down; a decoded envelope, even a protocol error, keeps it.
pub open spec fn step_receive(st: State, fe: FrameEventV) -> State {
    if st is Disconnected {
        State::Disconnected
    } else {
        match fe {
            FrameEventV::Frame(f) => if decode_response_spec(f) is Some {
                State::Connected
            } else {
                State::Disconnected
            },
            FrameEventV::TransportError => State::Disconnected,
            FrameEventV::Closed => State::Disconnected,
        }
    }
}

/// What one receive step returns: the decoded success/error envelope, or
/// the receive failure.
pub open spec fn receive_result(st: State, fe: FrameEventV) -> Result<
    Result<OkResponseV, ErrorResponse>,
    ResponseReceiveError,
> {
    if st is Disconnected {
        Err(ResponseReceiveError::Disconnected)
    } else {
        match fe {
            FrameEventV::Frame(f) => match decode_response_spec(f) {
                Some(envelope) => Ok(envelope),
                None => Err(ResponseReceiveError::Deserialization),
            },
            FrameEventV::TransportError => Err(ResponseReceiveError::Error),
            FrameEventV::Closed => Err(ResponseReceiveError::Disconnected),
        }
    }
}

/// The view of a received envelope, for relating executable results to
/// [`receive_result`].
pub open spec fn envelope_view(
    r: Result<Result<OkResponse, ErrorResponse>, ResponseReceiveError>,
) -> Result<Result<OkResponseV, ErrorResponse>, ResponseReceiveError> {
    match r {
        Ok(Ok(ok)) => Ok(Ok(ok@)),
        Ok(Err(e)) => Ok(Err(e)),
        Err(e) => Err(e),
    }
}

/// The connection. It owns the lifecycle state that stands for the single
/// transport channel; the state and the channel's presence move together.
pub struct Instance {
    pub state: State,
}

impl Default for Instance {
    /// A fresh connection starts disconnected, holding no channel.
    fn default() -> (r: Self)
        ensures
            r.state is Disconnected,
    {
        Instance { state: State::Disconnected }
    }
}

impl Instance {
    /// A fresh connection starts disconnected, holding no channel.
    pub fn new() -> (r: Self)
        ensures
            r.state is Disconnected,
    {
        Instance { state: State::Disconnected }
    }

    /// Record the outcome of the protocol upgrade handshake the host
    /// performed: on success the new channel is held and the state is
    /// `Connected`; on failure nothing is stored and the state is unchanged.
    pub fn connect(&mut self, succeeded: bool)
        ensures
            final(self).state == (if succeeded {
                State::Connected
            } else {
                old(self).state
            }),
    {
        if succeeded {
            self.state = State::Connected;
        }
    }

    /// Serialize a request into the frame the host must write. Only
    /// meaningful while connected: with no channel the send fails as
    /// disconnected and nothing is to be written.
    pub fn prepare_request(&self, request: &WireRequest) -> (r: Result<Vec<char>, RequestSendError>)
        ensures
            self.state is Connected ==> (r matches Ok(f) && f@ == encode_request_spec(request@)),
            self.state is Disconnected ==> (r matches Err(e) && e == RequestSendError::Disconnected),
    {
        match self.state {
            State::Connected => Ok(encode_request(request)),
            State::Disconnected => Err(RequestSendError::Disconnected),
        }
    }

    /// Record the outcome of writing a prepared frame: a send error implies
    /// disconnect — the channel is torn down before the error is returned.
    pub fn complete_send(&mut self, wrote: bool) -> (r: Result<(), RequestSendError>)
        requires
            old(self).state is Connected,
        ensures
            wrote ==> final(self).state is Connected && r is Ok,
            !wrote ==> final(self).state is Disconnected && (r matches Err(e) && e
                == RequestSendError::Send),
    {
        if wrote {
            Ok(())
        } else {
            self.disconnect();
            Err(RequestSendError::Send)
        }
    }

    /// Take the next transport read outcome: decode the frame into the
    /// response envelope, and tear the connection down on any receive
    /// failure — a transport fault, an undecodable frame, or closure.
    pub fn next(&mut self, incoming: FrameEvent) -> (r: Result<
        Result<OkResponse, ErrorResponse>,
        ResponseReceiveError,
    >)
        ensures
            final(self).state == step_receive(old(self).state, incoming@),
            envelope_view(r) == receive_result(old(self).state, incoming@),
    {
        match self.state {
            State::Disconnected => {
                self.disconnect();
                Err(ResponseReceiveError::Disconnected)
            },
            State::Connected => match incoming {
                FrameEvent::Frame(f) => match decode_response(&f) {
                    Some(envelope) => Ok(envelope),
                    None => {
                        self.disconnect();
                        Err(ResponseReceiveError::Deserialization)
                    },
                },
                FrameEvent::TransportError => {
                    self.disconnect();
                    Err(ResponseReceiveError::Error)
                },
                FrameEvent::Closed => {
                    self.disconnect();
                    Err(ResponseReceiveError::Disconnected)
                },
            },
        }
    }

    /// Disconnect, idempotently: the host closes the channel best-effort,
    /// and the state is `Disconnected` whatever it was.
    pub fn disconnect(&mut self)
        ensures
            final(self).state is Disconnected,
    {
        self.state = State::Disconnected;
    }
}

/// The headers of the protocol upgrade request that opens a channel:
/// the bearer credential, the upgrade pair, the derived host, the freshly
/// generated socket key, and the protocol version.
pub fn handshake_headers(host: &Vec<char>, token: &Vec<char>, key: &Vec<char>) -> (r: Vec<
    (Vec<char>, Vec<char>),
>)
    ensures
        r@.len() == 6,
        r@[0].0@ == "Authorization"@ && r@[0].1@ == "Bearer "@ + token@,
        r@[1].0@ == "Upgrade"@ && r@[1].1@ == "websocket"@,
        r@[2].0@ == "Connection"@ && r@[2].1@ == "upgrade"@,
        r@[3].0@ == "Host"@ && r@[3].1@ == host@,
        r@[4].0@ == "Sec-WebSocket-Key"@ && r@[4].1@ == key@,
        r@[5].0@ == "Sec-WebSocket-Version"@ && r@[5].1@ == "13"@,
{
    let mut r: Vec<(Vec<char>, Vec<char>)> = Vec::new();

    let mut bearer: Vec<char> = Vec::new();
    push_lit(&mut bearer, "Bearer ");
    let mut bearer_token = clone_text(token);
    bearer.append(&mut bearer_token);
    r.push((text_lit("Authorization"), bearer));

    r.push((text_lit("Upgrade"), text_lit("websocket")));
    r.push((text_lit("Connection"), text_lit("upgrade")));
    r.push((text_lit("Host"), clone_text(host)));
    r.push((text_lit("Sec-WebSocket-Key"), clone_text(key)));
    r.push((text_lit("Sec-WebSocket-Version"), text_lit("13")));
    r
}

/// A literal as a text buffer.
fn text_lit(lit: &str) -> (r: Vec<char>)
    ensures
        r@ == lit@,
{
    let mut r: Vec<char> = Vec::new();
    push_lit(&mut r, lit);
    proof {
        assert(Seq::<char>::empty() + lit@ =~= lit@);
    }
    r
}

} // verus!
