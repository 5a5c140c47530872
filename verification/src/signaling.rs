//! The signaling gateway's side of one client connection: what a client
//! sends, and what the gateway does about each thing that happens on the
//! socket.

use crate::codec::{decode, decoded, max_plain_len, text_of, CodecError};
use vstd::prelude::*;

verus! {

/// Largest message, in bytes, that the gateway puts together from
/// continuation frames: 1 MiB, so that a large SDP fits.
pub const MAX_MESSAGE_BYTES: usize = 1_048_576;

/// How many requests may wait between the gateway and the control loop.
pub const REQUEST_QUEUE_DEPTH: usize = 1;

/// The one request a client makes on its connection.
#[derive(Clone, Debug)]
pub struct ClientPayload {
    /// `broadcast` or `join`.
    pub action: String,
    /// The broadcast's name.
    pub name: String,
    /// The client's offer in wire form.
    pub sdp: String,
}

/// A client's request as a plain value.
pub struct PayloadView {
    pub action: Seq<char>,
    pub name: Seq<char>,
    pub sdp: Seq<char>,
}

impl View for ClientPayload {
    type V = PayloadView;

    open spec fn view(&self) -> PayloadView {
        PayloadView { action: self.action@, name: self.name@, sdp: self.sdp@ }
    }
}

/// What the server side may push to a connection outside the request and
/// its answer.
pub enum ServerToClientMsg {
    Text(String),
    Close,
}

/// Where a connection stands.
#[derive(Clone, Copy, Debug, PartialEq, Eq, Structural)]
pub enum ConnState {
    /// Waiting for the client's request.
    Open,
    /// The request is with the control loop; waiting for its answer.
    AwaitingResponse,
    /// Closed; nothing more happens.
    Terminated,
}

/// Something that happened on a connection.
pub enum ConnEvent {
    /// The client sent a text frame.
    Text(String),
    /// The JSON text handed out by `ConnAction::Parse` was parsed: the
    /// request it spells out, or `None` where it spells none.
    Parsed(Option<ClientPayload>),
    /// The client sent a ping with this payload.
    Ping(Vec<u8>),
    /// The client sent a close frame, or its stream ended.
    Closed,
    /// The stream reported an error, or something could not be sent.
    Failed,
    /// The client sent any other frame.
    Other,
    /// The control loop answered with this text, or gave up (`None`).
    Answer(Option<String>),
    /// The server side pushed a message, or hung up (`None`).
    Outbound(Option<ServerToClientMsg>),
}

/// What the gateway does next on a connection.
pub enum ConnAction {
    /// Nothing; keep listening.
    Idle,
    /// Drop the frame for this reason and keep listening.
    Discard(CodecError),
    /// Parse this JSON text as a request and report back with `ConnEvent::Parsed`.
    Parse(String),
    /// Hand the request to the control loop and wait for its answer.
    Forward(ClientPayload),
    /// Send a pong with this payload.
    Pong(Vec<u8>),
    /// Send this text and keep listening.
    Send(String),
    /// Send this text as the answer, then close the socket.
    Reply(String),
    /// Close the socket without sending anything.
    Close,
}

/// A `ConnAction` as a plain value.
pub enum ConnActionView {
    Idle,
    Discard(CodecError),
    Parse(Seq<char>),
    Forward(PayloadView),
    Pong(Seq<u8>),
    Send(Seq<char>),
    Reply(Seq<char>),
    Close,
}

impl View for ConnAction {
    type V = ConnActionView;

    open spec fn view(&self) -> ConnActionView {
        match *self {
            ConnAction::Idle => ConnActionView::Idle,
            ConnAction::Discard(e) => ConnActionView::Discard(e),
            ConnAction::Parse(json) => ConnActionView::Parse(json@),
            ConnAction::Forward(payload) => ConnActionView::Forward(payload@),
            ConnAction::Pong(bytes) => ConnActionView::Pong(bytes@),
            ConnAction::Send(text) => ConnActionView::Send(text@),
            ConnAction::Reply(text) => ConnActionView::Reply(text@),
            ConnAction::Close => ConnActionView::Close,
        }
    }
}

/// What to do with a text frame, given what it decodes to: parse the text
/// under the base64, or drop the frame.
pub open spec fn frame_outcome(text: Result<Seq<char>, CodecError>) -> ConnActionView {
    match text {
        Ok(json) => ConnActionView::Parse(json),
        Err(e) => ConnActionView::Discard(e),
    }
}

/// The state a connection moves to, and what the gateway does, when `event`
/// happens in `state`.
pub open spec fn transition(state: ConnState, event: ConnEvent) -> (ConnState, ConnActionView) {
    match state {
        ConnState::Terminated => (ConnState::Terminated, ConnActionView::Idle),
        ConnState::Open => match event {
            ConnEvent::Text(frame) => (ConnState::Open, frame_outcome(decoded(frame@))),
            ConnEvent::Parsed(Some(payload)) => (
                ConnState::AwaitingResponse,
                ConnActionView::Forward(payload@),
            ),
            ConnEvent::Parsed(None) => (ConnState::Open, ConnActionView::Discard(CodecError::Json)),
            ConnEvent::Ping(bytes) => (ConnState::Open, ConnActionView::Pong(bytes@)),
            ConnEvent::Closed => (ConnState::Terminated, ConnActionView::Close),
            ConnEvent::Failed => (ConnState::Terminated, ConnActionView::Close),
            ConnEvent::Other => (ConnState::Open, ConnActionView::Idle),
            ConnEvent::Answer(_) => (ConnState::Open, ConnActionView::Idle),
            ConnEvent::Outbound(Some(ServerToClientMsg::Text(text))) => (
                ConnState::Open,
                ConnActionView::Send(text@),
            ),
            ConnEvent::Outbound(Some(ServerToClientMsg::Close)) => (
                ConnState::Terminated,
                ConnActionView::Close,
            ),
            ConnEvent::Outbound(None) => (ConnState::Terminated, ConnActionView::Close),
        },
        ConnState::AwaitingResponse => match event {
            ConnEvent::Answer(Some(text)) => (ConnState::Terminated, ConnActionView::Reply(text@)),
            ConnEvent::Answer(None) => (ConnState::Terminated, ConnActionView::Close),
            ConnEvent::Closed => (ConnState::Terminated, ConnActionView::Close),
            ConnEvent::Failed => (ConnState::Terminated, ConnActionView::Close),
            _ => (ConnState::AwaitingResponse, ConnActionView::Idle),
        },
    }
}

/// What to do with a text frame that decoded to `text`.
pub fn frame_action(text: Result<String, CodecError>) -> (action: ConnAction)
    ensures
        action@ == frame_outcome(text_of(text)),
{
    match text {
        Ok(json) => ConnAction::Parse(json),
        Err(e) => ConnAction::Discard(e),
    }
}

/// One client connection of the gateway.
pub struct Connection {
    state: ConnState,
}

impl View for Connection {
    type V = ConnState;

    closed spec fn view(&self) -> ConnState {
        self.state
    }
}

impl Connection {
    /// A connection that has just been opened.
    pub fn new() -> (connection: Self)
        ensures
            connection@ == ConnState::Open,
    {
        Connection { state: ConnState::Open }
    }

    /// Where the connection stands.
    pub fn state(&self) -> (state: ConnState)
        ensures
            state == self@,
    {
        self.state
    }

    /// Takes in one event: moves the connection on and tells the gateway what to do.
    pub fn step(&mut self, event: ConnEvent) -> (action: ConnAction)
        ensures
            final(self)@ == transition(old(self)@, event).0,
            action@ == transition(old(self)@, event).1,
    {
        match self.state {
            ConnState::Terminated => ConnAction::Idle,
            ConnState::Open => match event {
                ConnEvent::Text(frame) => frame_action(decode(frame.as_str())),
                ConnEvent::Parsed(Some(payload)) => {
                    self.state = ConnState::AwaitingResponse;
                    ConnAction::Forward(payload)
                },
                ConnEvent::Parsed(None) => ConnAction::Discard(CodecError::Json),
                ConnEvent::Ping(bytes) => ConnAction::Pong(bytes),
                ConnEvent::Closed => {
                    self.state = ConnState::Terminated;
                    ConnAction::Close
                },
                ConnEvent::Failed => {
                    self.state = ConnState::Terminated;
                    ConnAction::Close
                },
                ConnEvent::Other => ConnAction::Idle,
                ConnEvent::Answer(_) => ConnAction::Idle,
                ConnEvent::Outbound(Some(ServerToClientMsg::Text(text))) => ConnAction::Send(text),
                ConnEvent::Outbound(Some(ServerToClientMsg::Close)) => {
                    self.state = ConnState::Terminated;
                    ConnAction::Close
                },
                ConnEvent::Outbound(None) => {
                    self.state = ConnState::Terminated;
                    ConnAction::Close
                },
            },
            ConnState::AwaitingResponse => match event {
                ConnEvent::Answer(Some(text)) => {
                    self.state = ConnState::Terminated;
                    ConnAction::Reply(text)
                },
                ConnEvent::Answer(None) => {
                    self.state = ConnState::Terminated;
                    ConnAction::Close
                },
                ConnEvent::Closed => {
                    self.state = ConnState::Terminated;
                    ConnAction::Close
                },
                ConnEvent::Failed => {
                    self.state = ConnState::Terminated;
                    ConnAction::Close
                },
                _ => ConnAction::Idle,
            },
        }
    }
}

/// Text of up to `MAX_MESSAGE_BYTES` bytes is short enough to be put on the wire.
pub proof fn lemma_message_limit_fits(len: nat)
    requires
        len <= MAX_MESSAGE_BYTES,
    ensures
        len <= max_plain_len(),
{
}

/// How many requests a connection hands to the control loop while it takes
/// in `events`, starting in `state`.
pub open spec fn forwards(state: ConnState, events: Seq<ConnEvent>) -> nat
    decreases events.len(),
{
    if events.len() == 0 {
        0
    } else {
        let (next, action) = transition(state, events[0]);
        let rest = forwards(next, events.drop_first());
        if action is Forward {
            rest + 1
        } else {
            rest
        }
    }
}

/// How many answers a connection sends to its client while it takes in
/// `events`, starting in `state`.
pub open spec fn replies(state: ConnState, events: Seq<ConnEvent>) -> nat
    decreases events.len(),
{
    if events.len() == 0 {
        0
    } else {
        let (next, action) = transition(state, events[0]);
        let rest = replies(next, events.drop_first());
        if action is Reply {
            rest + 1
        } else {
            rest
        }
    }
}

/// The state of a connection after all of `events`, starting in `state`.
pub open spec fn state_after(state: ConnState, events: Seq<ConnEvent>) -> ConnState
    decreases events.len(),
{
    if events.len() == 0 {
        state
    } else {
        state_after(transition(state, events[0]).0, events.drop_first())
    }
}

/// A terminated connection stays terminated and does nothing more, whatever
/// happens on it.
pub proof fn lemma_terminated_is_final(events: Seq<ConnEvent>)
    ensures
        forall|event: ConnEvent| #[trigger]
            transition(ConnState::Terminated, event) == (
                ConnState::Terminated,
                ConnActionView::Idle,
            ),
        state_after(ConnState::Terminated, events) == ConnState::Terminated,
    decreases events.len(),
{
    if events.len() > 0 {
        lemma_terminated_is_final(events.drop_first());
    }
}

/// An answer goes out only to a connection that waits for one, and that
/// connection is closed with it; a malformed frame never closes a connection.
pub proof fn lemma_reply_ends_the_exchange(state: ConnState, event: ConnEvent)
    ensures
        transition(state, event).1 is Reply ==> state == ConnState::AwaitingResponse
            && transition(state, event).0 == ConnState::Terminated,
        transition(state, event).1 is Forward ==> state == ConnState::Open && transition(
            state,
            event,
        ).0 == ConnState::AwaitingResponse,
        transition(state, event).1 is Discard ==> state == ConnState::Open && transition(
            state,
            event,
        ).0 == ConnState::Open,
{
}

/// Whatever happens on a connection, it hands at most one request to the
/// control loop and sends at most one answer, and it sends none without
/// having handed a request over.
pub proof fn lemma_one_exchange_per_connection(state: ConnState, events: Seq<ConnEvent>)
    ensures
        forwards(state, events) <= (if state == ConnState::Open {
            1nat
        } else {
            0nat
        }),
        replies(state, events) <= (if state == ConnState::Terminated {
            0nat
        } else {
            1nat
        }),
        state == ConnState::Open ==> replies(state, events) <= forwards(state, events),
    decreases events.len(),
{
    if events.len() > 0 {
        lemma_one_exchange_per_connection(transition(state, events[0]).0, events.drop_first());
    }
}

} // verus!
