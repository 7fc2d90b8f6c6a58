//! The controller: the single authoritative event loop's decisions.
//!
//! The host runs the loop — it waits on the command queue, and, while
//! connected, races it against the socket's read side; whichever is ready
//! first is handed in here. Every decision is a verified transition: which
//! sources to poll, what transport action a command asks for, and how state
//! and outcome follow from every transport result.

use vstd::prelude::*;

use crate::client::FrameEvent;
use crate::client::FrameEventV;
use crate::client::ConnectionError;
use crate::client::Instance;
use crate::client::RequestSendError;
use crate::client::ResponseReceiveError;
use crate::client::State;
use crate::client::envelope_view;
use crate::client::receive_result;
use crate::client::step_receive;
use crate::codec::encode_request_spec;
use crate::wire::ErrorResponse;
use crate::wire::MarkMessagesReadRequest;
use crate::wire::MessageRequest;
use crate::wire::MessageRequestV;
use crate::wire::MessageResponse;
use crate::wire::MessageResponseV;
use crate::wire::MessagesReadResponse;
use crate::wire::OkResponse;
use crate::wire::OkResponseV;
use crate::wire::WireRequest;
use crate::wire::WireRequestV;
use crate::wire::clone_text;

verus! {

/// A command submitted by the host: the outbound intent the loop consumes
/// exactly once, in submission order.
#[derive(Debug, Clone)]
pub enum SendEvent {
    Connect { url: Vec<char>, token: Vec<char> },
    Disconnect,
    Message(MessageRequest),
    MessagesRead(MarkMessagesReadRequest),
}

/// The mathematical view of a [`SendEvent`].
pub enum SendEventV {
    Connect { url: Seq<char>, token: Seq<char> },
    Disconnect,
    Message(MessageRequestV),
    MessagesRead(MarkMessagesReadRequest),
}

impl View for SendEvent {
    type V = SendEventV;

    open spec fn view(&self) -> SendEventV {
        match self {
            SendEvent::Connect { url, token } => SendEventV::Connect {
                url: url@,
                token: token@,
            },
            SendEvent::Disconnect => SendEventV::Disconnect,
            SendEvent::Message(m) => SendEventV::Message(m@),
            SendEvent::MessagesRead(r) => SendEventV::MessagesRead(*r),
        }
    }
}

/// An outcome event surfaced to the host. `Ready` is emitted exactly once,
/// at loop start, when the host hands out the command-submission handle.
#[derive(Debug, Clone)]
pub enum Event {
    Ready,
    Connected,
    Message(MessageResponse),
    MessageSent(u64),
    MessagesRead(MessagesReadResponse),
    MessageReceived(u64),
    Disconnected,
}

/// The mathematical view of an [`Event`].
pub enum EventV {
    Ready,
    Connected,
    Message(MessageResponseV),
    MessageSent(u64),
    MessagesRead(MessagesReadResponse),
    MessageReceived(u64),
    Disconnected,
}

impl View for Event {
    type V = EventV;

    open spec fn view(&self) -> EventV {
        match self {
            Event::Ready => EventV::Ready,
            Event::Connected => EventV::Connected,
            Event::Message(m) => EventV::Message(m@),
            Event::MessageSent(u) => EventV::MessageSent(*u),
            Event::MessagesRead(r) => EventV::MessagesRead(*r),
            Event::MessageReceived(u) => EventV::MessageReceived(*u),
            Event::Disconnected => EventV::Disconnected,
        }
    }
}

/// The controller's error taxonomy, surfaced as values in the event
/// sequence; an error never terminates the loop.
#[derive(Debug, Clone, Copy, PartialEq, Eq, Structural)]
pub enum Error {
    Send,
    Connection,
    Disconnected,
    Deserialization,
    Serialization,
    WrongRequestFormat,
    UserNotFound,
    NotMemberOfRoom,
    MessageNotFound(u64),
    Unknown,
}

/// Which source produced the next thing to handle: the command queue or
/// the socket's read side.
#[derive(Debug, Clone)]
pub enum ReceivedEventVariant {
    Send(SendEvent),
    Receive(FrameEvent),
}

/// The transport action a command asks of the host, to be performed before
/// the command's outcome is recorded.
#[derive(Debug, Clone)]
pub enum Action {
    /// Open a channel: the protocol upgrade handshake with the command's
    /// url and bearer token.
    Open,
    /// Write this frame to the channel.
    Write(Vec<char>),
    /// Close the channel, best-effort.
    Close,
    /// Touch nothing.
    Nothing,
}

/// The mathematical view of an [`Action`].
pub enum ActionV {
    Open,
    Write(Seq<char>),
    Close,
    Nothing,
}

impl View for Action {
    type V = ActionV;

    open spec fn view(&self) -> ActionV {
        match self {
            Action::Open => ActionV::Open,
            Action::Write(f) => ActionV::Write(f@),
            Action::Close => ActionV::Close,
            Action::Nothing => ActionV::Nothing,
        }
    }
}

/// How a receive failure is surfaced.
pub open spec fn error_of_receive(e: ResponseReceiveError) -> Error {
    match e {
        ResponseReceiveError::Error => Error::Unknown,
        ResponseReceiveError::Deserialization => Error::Deserialization,
        ResponseReceiveError::Disconnected => Error::Disconnected,
    }
}

/// How a send failure is surfaced.
pub open spec fn error_of_send(e: RequestSendError) -> Error {
    match e {
        RequestSendError::Send => Error::Send,
        RequestSendError::Disconnected => Error::Disconnected,
        RequestSendError::Serialization => Error::Serialization,
    }
}

impl From<ResponseReceiveError> for Error {
    fn from(value: ResponseReceiveError) -> (r: Self) {
        match value {
            ResponseReceiveError::Error => Error::Unknown,
            ResponseReceiveError::Deserialization => Error::Deserialization,
            ResponseReceiveError::Disconnected => Error::Disconnected,
        }
    }
}

impl vstd::std_specs::convert::FromSpecImpl<ResponseReceiveError> for Error {
    open spec fn obeys_from_spec() -> bool {
        true
    }

    open spec fn from_spec(t: ResponseReceiveError) -> Error {
        error_of_receive(t)
    }
}

impl From<RequestSendError> for Error {
    fn from(value: RequestSendError) -> (r: Self) {
        match value {
            RequestSendError::Send => Error::Send,
            RequestSendError::Disconnected => Error::Disconnected,
            RequestSendError::Serialization => Error::Serialization,
        }
    }
}

impl vstd::std_specs::convert::FromSpecImpl<RequestSendError> for Error {
    open spec fn obeys_from_spec() -> bool {
        true
    }

    open spec fn from_spec(t: RequestSendError) -> Error {
        error_of_send(t)
    }
}

impl From<ConnectionError> for Error {
    fn from(value: ConnectionError) -> (r: Self) {
        let _ = value;
        Error::Connection
    }
}

impl vstd::std_specs::convert::FromSpecImpl<ConnectionError> for Error {
    open spec fn obeys_from_spec() -> bool {
        true
    }

    open spec fn from_spec(t: ConnectionError) -> Error {
        Error::Connection
    }
}

/// How a protocol error payload is surfaced: one controller error for each,
/// with the correlation id kept for a missing message.
pub open spec fn error_of_protocol(e: ErrorResponse) -> Error {
    match e {
        ErrorResponse::WrongFormat => Error::WrongRequestFormat,
        ErrorResponse::WrongJsonFormat => Error::WrongRequestFormat,
        ErrorResponse::MessageNotFound(u) => Error::MessageNotFound(u),
        ErrorResponse::UserNotFound => Error::UserNotFound,
        ErrorResponse::Fatal => Error::Unknown,
        ErrorResponse::NotMemberOfRoom => Error::NotMemberOfRoom,
    }
}

/// The event a successful response payload becomes.
pub open spec fn event_of_ok(ok: OkResponseV) -> EventV {
    match ok {
        OkResponseV::Message(m) => EventV::Message(m),
        OkResponseV::MessagesRead(r) => EventV::MessagesRead(r),
        OkResponseV::MessageReceived(u) => EventV::MessageReceived(u),
    }
}

/// The view of a handled outcome, for relating executable results to the
/// outcome spec functions.
pub open spec fn outcome_view(r: Result<Option<Event>, Error>) -> Result<Option<EventV>, Error> {
    match r {
        Ok(Some(e)) => Ok(Some(e@)),
        Ok(None) => Ok(None),
        Err(e) => Err(e),
    }
}

/// What handling one received envelope yields: a delivered payload becomes
/// its event, a protocol error its controller error, a receive failure its
/// transport-tier error.
pub open spec fn receive_outcome(
    envelope: Result<Result<OkResponseV, ErrorResponse>, ResponseReceiveError>,
) -> Result<Option<EventV>, Error> {
    match envelope {
        Ok(Ok(ok)) => Ok(Some(event_of_ok(ok))),
        Ok(Err(pe)) => Err(error_of_protocol(pe)),
        Err(e) => Err(error_of_receive(e)),
    }
}

/// The lifecycle state after one command, given whether the transport
/// action the command asked for succeeded.
pub open spec fn step_send(st: State, ev: SendEventV, io_ok: bool) -> State {
    match ev {
        SendEventV::Connect { .. } => if io_ok {
            State::Connected
        } else {
            st
        },
        SendEventV::Disconnect => State::Disconnected,
        SendEventV::Message(_) => if st is Connected && !io_ok {
            State::Disconnected
        } else {
            st
        },
        SendEventV::MessagesRead(_) => if st is Connected && !io_ok {
            State::Disconnected
        } else {
            st
        },
    }
}

/// What handling one command yields: exactly one `Connected` event for a
/// successful connect, one `Disconnected` event for every disconnect, one
/// `MessageSent` carrying the correlation id for a delivered chat message,
/// no event for a delivered read receipt, and exactly one matching error
/// otherwise.
pub open spec fn send_outcome(st: State, ev: SendEventV, io_ok: bool) -> Result<
    Option<EventV>,
    Error,
> {
    match ev {
        SendEventV::Connect { .. } => if io_ok {
            Ok(Some(EventV::Connected))
        } else {
            Err(Error::Connection)
        },
        SendEventV::Disconnect => Ok(Some(EventV::Disconnected)),
        SendEventV::Message(m) => if st is Connected {
            if io_ok {
                Ok(Some(EventV::MessageSent(m.uuid)))
            } else {
                Err(Error::Send)
            }
        } else {
            Err(Error::Disconnected)
        },
        SendEventV::MessagesRead(_) => if st is Connected {
            if io_ok {
                Ok(None)
            } else {
                Err(Error::Send)
            }
        } else {
            Err(Error::Disconnected)
        },
    }
}

/// The transport action a command asks for in a given state: a connect
/// always opens; a disconnect closes only a held channel; payloads are
/// written only while connected — while disconnected no command but
/// `Connect` touches the transport.
pub open spec fn spec_action(st: State, ev: SendEventV) -> ActionV {
    match ev {
        SendEventV::Connect { .. } => ActionV::Open,
        SendEventV::Disconnect => if st is Connected {
            ActionV::Close
        } else {
            ActionV::Nothing
        },
        SendEventV::Message(m) => if st is Connected {
            ActionV::Write(encode_request_spec(WireRequestV::Message(m)))
        } else {
            ActionV::Nothing
        },
        SendEventV::MessagesRead(r) => if st is Connected {
            ActionV::Write(encode_request_spec(WireRequestV::MessagesRead(r)))
        } else {
            ActionV::Nothing
        },
    }
}

/// The event handler: owns the one connection and decides every step of
/// the loop. The command queue and the socket belong to the host, which
/// feeds their output in.
pub struct EventHandler {
    pub ws_client: Instance,
}

impl EventHandler {
    /// A fresh handler: its connection starts disconnected.
    pub fn new() -> (r: Self)
        ensures
            r.ws_client.state is Disconnected,
    {
        EventHandler { ws_client: Instance::new() }
    }

    /// Whether the loop polls the socket besides the command queue: only
    /// while connected — receiving is meaningless with no channel.
    pub fn polls_receive(&self) -> (r: bool)
        ensures
            r == (self.ws_client.state is Connected),
    {
        match self.ws_client.state {
            State::Connected => true,
            State::Disconnected => false,
        }
    }

    /// The transport action to perform for a command, before handing its
    /// outcome to [`Self::handle_send`].
    pub fn action_for(&self, event: &SendEvent) -> (r: Action)
        ensures
            r@ == spec_action(self.ws_client.state, event@),
    {
        match event {
            SendEvent::Connect { .. } => Action::Open,
            SendEvent::Disconnect => match self.ws_client.state {
                State::Connected => Action::Close,
                State::Disconnected => Action::Nothing,
            },
            SendEvent::Message(m) => match self.ws_client.state {
                State::Connected => {
                    let request = WireRequest::Message(
                        (MessageRequest { uuid: m.uuid, text: clone_text(&m.text) }),
                    );
                    match self.ws_client.prepare_request(&request) {
                        Ok(frame) => Action::Write(frame),
                        Err(_) => Action::Nothing,
                    }
                },
                State::Disconnected => Action::Nothing,
            },
            SendEvent::MessagesRead(rr) => match self.ws_client.state {
                State::Connected => {
                    let request = WireRequest::MessagesRead(*rr);
                    match self.ws_client.prepare_request(&request) {
                        Ok(frame) => Action::Write(frame),
                        Err(_) => Action::Nothing,
                    }
                },
                State::Disconnected => Action::Nothing,
            },
        }
    }

    /// Handle one command, given whether the transport action it asked for
    /// succeeded: the state moves by [`step_send`] and the outcome is
    /// exactly [`send_outcome`].
    pub fn handle_send(&mut self, event: SendEvent, io_ok: bool) -> (r: Result<Option<Event>, Error>)
        ensures
            final(self).ws_client.state == step_send(old(self).ws_client.state, event@, io_ok),
            outcome_view(r) == send_outcome(old(self).ws_client.state, event@, io_ok),
    {
        match event {
            SendEvent::Connect { .. } => {
                self.ws_client.connect(io_ok);
                if io_ok {
                    Ok(Some(Event::Connected))
                } else {
                    Err(Error::Connection)
                }
            },
            SendEvent::Disconnect => {
                self.ws_client.disconnect();
                Ok(Some(Event::Disconnected))
            },
            SendEvent::Message(m) => match self.ws_client.state {
                State::Disconnected => Err(Error::Disconnected),
                State::Connected => match self.ws_client.complete_send(io_ok) {
                    Ok(_) => Ok(Some(Event::MessageSent(m.uuid))),
                    Err(e) => Err(Error::from(e)),
                },
            },
            SendEvent::MessagesRead(_) => match self.ws_client.state {
                State::Disconnected => Err(Error::Disconnected),
                State::Connected => match self.ws_client.complete_send(io_ok) {
                    Ok(_) => Ok(None),
                    Err(e) => Err(Error::from(e)),
                },
            },
        }
    }

    /// Map one received envelope onto the host-facing outcome; handling a
    /// payload never moves the state — teardown on receive failure already
    /// happened when the envelope was taken.
    pub fn handle_receive(&self, event_result: Result<
        Result<OkResponse, ErrorResponse>,
        ResponseReceiveError,
    >) -> (r: Result<Option<Event>, Error>)
        ensures
            outcome_view(r) == receive_outcome(envelope_view(event_result)),
    {
        match event_result {
            Ok(Ok(ok)) => Ok(Some(
                match ok {
                    OkResponse::Message(m) => Event::Message(m),
                    OkResponse::MessagesRead(rr) => Event::MessagesRead(rr),
                    OkResponse::MessageReceived(u) => Event::MessageReceived(u),
                },
            )),
            Ok(Err(pe)) => Err(
                match pe {
                    ErrorResponse::WrongFormat => Error::WrongRequestFormat,
                    ErrorResponse::WrongJsonFormat => Error::WrongRequestFormat,
                    ErrorResponse::MessageNotFound(u) => Error::MessageNotFound(u),
                    ErrorResponse::UserNotFound => Error::UserNotFound,
                    ErrorResponse::Fatal => Error::Unknown,
                    ErrorResponse::NotMemberOfRoom => Error::NotMemberOfRoom,
                },
            ),
            Err(e) => Err(Error::from(e)),
        }
    }

    /// Take one transport read outcome and handle it: the connection tears
    /// down on any receive failure, and the outcome is exactly the handled
    /// envelope.
    pub fn receive_frame(&mut self, incoming: FrameEvent) -> (r: Result<Option<Event>, Error>)
        ensures
            final(self).ws_client.state == step_receive(old(self).ws_client.state, incoming@),
            outcome_view(r) == receive_outcome(
                receive_result(old(self).ws_client.state, incoming@),
            ),
    {
        let envelope = self.ws_client.next(incoming);
        self.handle_receive(envelope)
    }
}

// ---------------------------------------------------------------------------
// Laws of the loop
// ---------------------------------------------------------------------------

/// The state after a run of commands, each paired with its transport
/// outcome.
pub open spec fn run_commands(st: State, evs: Seq<(SendEventV, bool)>) -> State
    decreases evs.len(),
{
    if evs.len() == 0 {
        st
    } else {
        run_commands(step_send(st, evs[0].0, evs[0].1), evs.drop_first())
    }
}

/// While disconnected, a run of commands none of which is a `Connect`
/// leaves the connection disconnected, and no such command asks the host
/// for any transport action: no socket operation occurs.
pub proof fn lemma_disconnected_commands_inert(evs: Seq<(SendEventV, bool)>)
    requires
        forall|i: int| 0 <= i < evs.len() ==> !((#[trigger] evs[i]).0 is Connect),
    ensures
        run_commands(State::Disconnected, evs) is Disconnected,
        forall|ev: SendEventV| !(ev is Connect) ==> #[trigger] spec_action(
            State::Disconnected,
            ev,
        ) is Nothing,
    decreases evs.len(),
{
    if evs.len() > 0 {
        assert(step_send(State::Disconnected, evs[0].0, evs[0].1) is Disconnected);
        assert(forall|i: int| 0 <= i < evs.drop_first().len() ==> !((#[trigger] evs.drop_first()[
            i
        ]).0 is Connect));
        lemma_disconnected_commands_inert(evs.drop_first());
    }
}

/// While disconnected, such a run stays disconnected at every point, not
/// only at its end.
pub proof fn lemma_disconnected_run_prefixes(evs: Seq<(SendEventV, bool)>, k: int)
    requires
        forall|i: int| 0 <= i < evs.len() ==> !((#[trigger] evs[i]).0 is Connect),
        0 <= k <= evs.len(),
    ensures
        run_commands(State::Disconnected, evs.take(k)) is Disconnected,
{
    let p = evs.take(k);
    assert forall|i: int| 0 <= i < p.len() implies !((#[trigger] p[i]).0 is Connect) by {
        assert(p[i] == evs[i]);
    }
    lemma_disconnected_commands_inert(p);
}

/// A successful connect lands in `Connected` with exactly one `Connected`
/// event; a send or receive failure while connected lands back in
/// `Disconnected` with exactly one matching error before anything else is
/// handled.
pub proof fn lemma_connect_then_failure(
    st: State,
    url: Seq<char>,
    token: Seq<char>,
    m: MessageRequestV,
    fe: FrameEventV,
)
    ensures
        step_send(st, SendEventV::Connect { url, token }, true) is Connected,
        send_outcome(st, SendEventV::Connect { url, token }, true) == Ok::<Option<EventV>, Error>(
            Some(EventV::Connected),
        ),
        step_send(State::Connected, SendEventV::Message(m), false) is Disconnected,
        send_outcome(State::Connected, SendEventV::Message(m), false) == Err::<
            Option<EventV>,
            Error,
        >(Error::Send),
        fe is TransportError ==> step_receive(State::Connected, fe) is Disconnected
            && receive_outcome(receive_result(State::Connected, fe)) == Err::<
            Option<EventV>,
            Error,
        >(Error::Unknown),
        fe is Closed ==> step_receive(State::Connected, fe) is Disconnected && receive_outcome(
            receive_result(State::Connected, fe),
        ) == Err::<Option<EventV>, Error>(Error::Disconnected),
{
}

/// Disconnecting is idempotent: issued while already disconnected it
/// produces no error, emits only the one requested `Disconnected` event,
/// and asks for no transport action.
pub proof fn lemma_disconnect_idempotent(io_ok: bool)
    ensures
        step_send(State::Disconnected, SendEventV::Disconnect, io_ok) is Disconnected,
        send_outcome(State::Disconnected, SendEventV::Disconnect, io_ok) == Ok::<
            Option<EventV>,
            Error,
        >(Some(EventV::Disconnected)),
        spec_action(State::Disconnected, SendEventV::Disconnect) is Nothing,
{
}

} // verus!
