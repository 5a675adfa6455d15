//! The delivery session of one subscriber, as a state machine: the caller
//! performs each command (wait on the channel, encode, write to the
//! transport, close) and feeds back what happened.
use vstd::prelude::*;
use crate::event::{Action, ActionModel};

verus! {

/// `Connecting` until the handshake succeeds, then `Active`; `Closed` is
/// terminal.
#[derive(Clone, Copy, Debug, PartialEq, Eq, Structural)]
pub enum SessionState {
    Connecting,
    Active,
    Closed,
}

/// What happened since the last command.
#[derive(Clone, Debug)]
pub enum SessionEvent {
    HandshakeSucceeded,
    HandshakeFailed,
    /// The next action from the channel subscription.
    Received(Action),
    /// The subscription fell behind and skipped this many actions.
    Lagged(u64),
    /// The channel has no producer left.
    ChannelClosed,
    /// The wire record of the action last handed out for encoding, or `None`
    /// when it could not be encoded.
    Encoded(Option<String>),
    Sent,
    SendFailed,
    ReceiveFailed,
    Shutdown,
}

/// What the caller does next.
#[derive(Clone, Debug)]
pub enum Command {
    /// Wait for the next item of the channel subscription.
    Await,
    /// Encode this action as a wire record.
    Encode(Action),
    /// Write this text frame to the transport.
    Send(String),
    /// Close the transport and drop the subscription.
    Close,
    /// Nothing to do for this event.
    Nothing,
}

pub enum EventModel {
    HandshakeSucceeded,
    HandshakeFailed,
    Received(ActionModel),
    Lagged(u64),
    ChannelClosed,
    Encoded(Option<Seq<char>>),
    Sent,
    SendFailed,
    ReceiveFailed,
    Shutdown,
}

pub enum CommandModel {
    Await,
    Encode(ActionModel),
    Send(Seq<char>),
    Close,
    Nothing,
}

impl View for SessionEvent {
    type V = EventModel;

    open spec fn view(&self) -> EventModel {
        match self {
            SessionEvent::HandshakeSucceeded => EventModel::HandshakeSucceeded,
            SessionEvent::HandshakeFailed => EventModel::HandshakeFailed,
            SessionEvent::Received(a) => EventModel::Received(a@),
            SessionEvent::Lagged(n) => EventModel::Lagged(*n),
            SessionEvent::ChannelClosed => EventModel::ChannelClosed,
            SessionEvent::Encoded(t) => EventModel::Encoded(
                match t {
                    Some(s) => Some(s@),
                    None => None,
                },
            ),
            SessionEvent::Sent => EventModel::Sent,
            SessionEvent::SendFailed => EventModel::SendFailed,
            SessionEvent::ReceiveFailed => EventModel::ReceiveFailed,
            SessionEvent::Shutdown => EventModel::Shutdown,
        }
    }
}

impl View for Command {
    type V = CommandModel;

    open spec fn view(&self) -> CommandModel {
        match self {
            Command::Await => CommandModel::Await,
            Command::Encode(a) => CommandModel::Encode(a@),
            Command::Send(s) => CommandModel::Send(s@),
            Command::Close => CommandModel::Close,
            Command::Nothing => CommandModel::Nothing,
        }
    }
}

impl EventModel {
    /// A failure or a shutdown, which ends a session that is not yet closed.
    pub open spec fn ends_session(self) -> bool {
        match self {
            EventModel::HandshakeFailed | EventModel::ChannelClosed | EventModel::SendFailed
            | EventModel::ReceiveFailed | EventModel::Shutdown => true,
            _ => false,
        }
    }
}

/// One subscriber's session: its state, and how many actions it has missed
/// by falling behind (saturating).
#[derive(Clone, Copy, Debug, PartialEq, Eq, Structural)]
pub struct Session {
    pub state: SessionState,
    pub missed: u64,
}

/// The next session and the command for an event.
pub open spec fn session_step(s: Session, e: EventModel) -> (Session, CommandModel) {
    let closed = Session { state: SessionState::Closed, ..s };
    match s.state {
        SessionState::Closed => (s, CommandModel::Nothing),
        SessionState::Connecting => if e.ends_session() {
            (closed, CommandModel::Close)
        } else if e is HandshakeSucceeded {
            (Session { state: SessionState::Active, ..s }, CommandModel::Await)
        } else {
            (s, CommandModel::Nothing)
        },
        SessionState::Active => if e.ends_session() {
            (closed, CommandModel::Close)
        } else {
            match e {
                EventModel::Received(a) => (s, CommandModel::Encode(a)),
                EventModel::Encoded(Some(t)) => (s, CommandModel::Send(t)),
                EventModel::Encoded(None) => (s, CommandModel::Await),
                EventModel::Sent => (s, CommandModel::Await),
                EventModel::Lagged(n) => (
                    Session {
                        missed: if s.missed as int + n as int > u64::MAX as int {
                            u64::MAX
                        } else {
                            (s.missed + n) as u64
                        },
                        ..s
                    },
                    CommandModel::Await,
                ),
                _ => (s, CommandModel::Nothing),
            }
        },
    }
}

impl Session {
    /// A session whose handshake is still pending.
    pub fn new() -> (r: Session)
        ensures
            r == (Session { state: SessionState::Connecting, missed: 0 }),
    {
        Session { state: SessionState::Connecting, missed: 0 }
    }

    pub fn is_closed(&self) -> (r: bool)
        ensures
            r == (self.state == SessionState::Closed),
    {
        self.state == SessionState::Closed
    }

    /// Advances the session by one event and returns what to do next.
    pub fn step(&mut self, event: SessionEvent) -> (r: Command)
        ensures
            (*final(self), r@) == session_step(*old(self), event@),
    {
        match self.state {
            SessionState::Closed => Command::Nothing,
            SessionState::Connecting => match event {
                SessionEvent::HandshakeSucceeded => {
                    self.state = SessionState::Active;
                    Command::Await
                },
                SessionEvent::HandshakeFailed | SessionEvent::ChannelClosed
                | SessionEvent::SendFailed | SessionEvent::ReceiveFailed
                | SessionEvent::Shutdown => {
                    self.state = SessionState::Closed;
                    Command::Close
                },
                _ => Command::Nothing,
            },
            SessionState::Active => match event {
                SessionEvent::Received(a) => Command::Encode(a),
                SessionEvent::Encoded(Some(t)) => Command::Send(t),
                SessionEvent::Encoded(None) => Command::Await,
                SessionEvent::Sent => Command::Await,
                SessionEvent::Lagged(n) => {
                    self.missed = self.missed.saturating_add(n);
                    Command::Await
                },
                SessionEvent::HandshakeFailed | SessionEvent::ChannelClosed
                | SessionEvent::SendFailed | SessionEvent::ReceiveFailed
                | SessionEvent::Shutdown => {
                    self.state = SessionState::Closed;
                    Command::Close
                },
                SessionEvent::HandshakeSucceeded => Command::Nothing,
            },
        }
    }
}

/// The commands a session issues for a sequence of events, in order.
pub open spec fn session_run(s: Session, evs: Seq<EventModel>) -> Seq<CommandModel>
    decreases evs.len(),
{
    if evs.len() == 0 {
        Seq::empty()
    } else {
        let (next, c) = session_step(s, evs[0]);
        seq![c] + session_run(next, evs.drop_first())
    }
}

/// The actions received from the channel, in order.
pub open spec fn received_actions(evs: Seq<EventModel>) -> Seq<ActionModel>
    decreases evs.len(),
{
    if evs.len() == 0 {
        Seq::empty()
    } else {
        let rest = received_actions(evs.drop_first());
        match evs[0] {
            EventModel::Received(a) => seq![a] + rest,
            _ => rest,
        }
    }
}

/// The actions handed out for encoding, in order.
pub open spec fn encode_requests(cs: Seq<CommandModel>) -> Seq<ActionModel>
    decreases cs.len(),
{
    if cs.len() == 0 {
        Seq::empty()
    } else {
        let rest = encode_requests(cs.drop_first());
        match cs[0] {
            CommandModel::Encode(a) => seq![a] + rest,
            _ => rest,
        }
    }
}

/// The wire records that came back from encoding, in order.
pub open spec fn encoded_records(evs: Seq<EventModel>) -> Seq<Seq<char>>
    decreases evs.len(),
{
    if evs.len() == 0 {
        Seq::empty()
    } else {
        let rest = encoded_records(evs.drop_first());
        match evs[0] {
            EventModel::Encoded(Some(t)) => seq![t] + rest,
            _ => rest,
        }
    }
}

/// The frames written to the transport, in order.
pub open spec fn sent_frames(cs: Seq<CommandModel>) -> Seq<Seq<char>>
    decreases cs.len(),
{
    if cs.len() == 0 {
        Seq::empty()
    } else {
        let rest = sent_frames(cs.drop_first());
        match cs[0] {
            CommandModel::Send(t) => seq![t] + rest,
            _ => rest,
        }
    }
}

/// An active session that meets no failure or shutdown forwards what it
/// receives unreordered and complete: the actions it hands out for encoding
/// are exactly the actions received, in order, and the frames it writes are
/// exactly the records encoded, in order. Gaps reported by the channel do
/// not stop it.
pub proof fn lemma_forwards_in_order(s: Session, evs: Seq<EventModel>)
    requires
        s.state == SessionState::Active,
        forall|i: int| 0 <= i < evs.len() ==> !(#[trigger] evs[i]).ends_session(),
    ensures
        encode_requests(session_run(s, evs)) == received_actions(evs),
        sent_frames(session_run(s, evs)) == encoded_records(evs),
    decreases evs.len(),
{
    if evs.len() > 0 {
        let (next, c) = session_step(s, evs[0]);
        let rest = evs.drop_first();
        assert forall|i: int| 0 <= i < rest.len() implies !(#[trigger] rest[i]).ends_session() by {
            assert(rest[i] == evs[i + 1]);
        }
        lemma_forwards_in_order(next, rest);
        let run = session_run(s, evs);
        assert(run.drop_first() =~= session_run(next, rest));
        assert(run[0] == c);
    }
}

} // verus!
