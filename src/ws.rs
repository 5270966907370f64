use vstd::prelude::*;

use crate::poller::BACKOFF_MS;
use crate::{Error, EventModel, MediaEvent, MediaMetadata, MetadataModel};

verus! {

/// Message to the client of the push protocol.
#[derive(Debug, Clone, Copy, PartialEq, Eq, Structural)]
pub enum MediaMessage {
    /// Asks the client to report its progress every this many milliseconds;
    /// a client may ignore it
    ProgressUpdateInterval(u64),
}

/// The snapshot after `event` arrives on `m`: a new track replaces it whole,
/// a new state replaces the state, a new position replaces `elapsed` (the
/// position is absolute, in milliseconds).
pub open spec fn applied(m: MetadataModel, event: EventModel) -> MetadataModel {
    match event {
        EventModel::MediaChanged(n) => n,
        EventModel::StateChanged(s) => MetadataModel { state: s, ..m },
        EventModel::ProgressChanged(p) => MetadataModel { elapsed: p, ..m },
    }
}

/// Applies an event pushed by a client to the snapshot it keeps.
pub fn apply_event(store: &mut MediaMetadata, event: MediaEvent)
    ensures
        final(store)@ == applied(old(store)@, event@),
{
    match event {
        MediaEvent::MediaChanged(m) => {
            *store = m;
        },
        MediaEvent::StateChanged(s) => {
            store.state = s;
        },
        MediaEvent::ProgressChanged(p) => {
            store.elapsed = p;
        },
    }
}

/// A frame read from the connection, with its text decoded.
#[derive(Debug)]
pub enum InboundFrame {
    /// A text frame that holds an event
    Event(MediaEvent),
    /// A text frame that does not hold an event, with the decoder's message
    Malformed(String),
    /// A frame that is not text
    NotText,
    /// The connection failed, with its message
    Failed(String),
    /// The client closed the connection
    Ended,
}

/// What a read of the next message gives: nothing once the client has gone,
/// else the event or the error of that message.
pub open spec fn frame_outcome(frame: InboundFrame) -> Option<Result<MediaEvent, Error>> {
    match frame {
        InboundFrame::Event(e) => Some(Ok(e)),
        InboundFrame::Malformed(m) => Some(Err(Error::Protocol(m))),
        InboundFrame::NotText => Some(Err(Error::UnsupportedMessage)),
        InboundFrame::Failed(m) => Some(Err(Error::Transport(m))),
        InboundFrame::Ended => None,
    }
}

/// Turns a frame into what a reader of the connection receives.
pub fn frame_result(frame: InboundFrame) -> (r: Option<Result<MediaEvent, Error>>)
    ensures
        r == frame_outcome(frame),
{
    match frame {
        InboundFrame::Event(e) => Some(Ok(e)),
        InboundFrame::Malformed(m) => Some(Err(Error::Protocol(m))),
        InboundFrame::NotText => Some(Err(Error::UnsupportedMessage)),
        InboundFrame::Failed(m) => Some(Err(Error::Transport(m))),
        InboundFrame::Ended => None,
    }
}

/// An error that concerns one message only: the session goes on.
pub open spec fn message_scoped(e: Error) -> bool {
    e is Protocol || e is UnsupportedMessage
}

/// Where the push server stands.
#[derive(Debug, Clone, Copy, PartialEq, Eq, Structural)]
pub enum ServerState {
    /// Not bound to its address
    Unbound,
    /// Bound, waiting for a client
    Listening,
    /// Reading the frames of one client
    InSession,
    /// Cancelled: stopped for good
    Closed,
}

/// What came of the action that the server asked for last.
#[derive(Debug)]
pub enum ServerObservation {
    /// The server has just started
    Started,
    /// The address is bound
    Bound,
    /// Binding the address failed
    BindFailed,
    /// A client connected
    Accepted,
    /// Accepting a client failed
    AcceptFailed,
    /// A read of the next message gave this
    Frame(Option<Result<MediaEvent, Error>>),
    /// The event was offered to the channel and applied to the snapshot
    Forwarded,
    /// Nothing happened within [`BACKOFF_MS`] of waiting for a client or a
    /// message
    Idle,
    /// The requested pause is over
    Waited,
}

/// What the server asks its driver to do next.
#[derive(Debug)]
pub enum ServerAction {
    /// Bind the configured address
    Bind,
    /// Wait for a client, at most [`BACKOFF_MS`]
    Accept,
    /// Read the next message of the client, waiting at most [`BACKOFF_MS`]
    Read,
    /// Offer the event to the channel without waiting, and apply it to the
    /// snapshot
    Forward(MediaEvent),
    /// Pause for this many milliseconds
    Sleep(u64),
    /// Close the connection, if one is open, and stop
    Exit,
}

/// The decisions of the push server: it serves one client at a time, takes
/// the next client when one leaves, and goes past a malformed message
/// without ending the session.
#[derive(Debug)]
pub struct PushServer {
    pub state: ServerState,
}

impl PushServer {
    /// State and action after `observation`, where `cancelled` tells whether
    /// cancellation was requested.
    pub open spec fn next(self, cancelled: bool, observation: ServerObservation) -> (ServerState, ServerAction) {
        if cancelled || self.state == ServerState::Closed {
            (ServerState::Closed, ServerAction::Exit)
        } else {
            match observation {
                ServerObservation::Started => (ServerState::Unbound, ServerAction::Bind),
                ServerObservation::Waited => (ServerState::Unbound, ServerAction::Bind),
                ServerObservation::Bound => (ServerState::Listening, ServerAction::Accept),
                ServerObservation::BindFailed => (ServerState::Unbound, ServerAction::Sleep(BACKOFF_MS)),
                ServerObservation::Accepted => (ServerState::InSession, ServerAction::Read),
                ServerObservation::AcceptFailed => (ServerState::Unbound, ServerAction::Bind),
                ServerObservation::Forwarded => (ServerState::InSession, ServerAction::Read),
                ServerObservation::Idle => match self.state {
                    ServerState::InSession => (ServerState::InSession, ServerAction::Read),
                    ServerState::Listening => (ServerState::Listening, ServerAction::Accept),
                    _ => (ServerState::Unbound, ServerAction::Bind),
                },
                ServerObservation::Frame(Some(Ok(e))) => (ServerState::InSession, ServerAction::Forward(e)),
                ServerObservation::Frame(Some(Err(e))) => if message_scoped(e) {
                    (ServerState::InSession, ServerAction::Read)
                } else {
                    (ServerState::Listening, ServerAction::Accept)
                },
                ServerObservation::Frame(None) => (ServerState::Listening, ServerAction::Accept),
            }
        }
    }

    /// A server that has not bound its address yet.
    pub fn new() -> (r: PushServer)
        ensures
            r.state == ServerState::Unbound,
    {
        PushServer { state: ServerState::Unbound }
    }

    /// Whether the server has stopped for good.
    pub fn is_closed(&self) -> (r: bool)
        ensures
            r == (self.state == ServerState::Closed),
    {
        self.state == ServerState::Closed
    }

    /// Whether a client is connected.
    pub fn is_running(&self) -> (r: bool)
        ensures
            r == (self.state == ServerState::InSession),
    {
        self.state == ServerState::InSession
    }

    /// Takes in what came of the last action and decides the next one.
    pub fn step(&mut self, cancelled: bool, observation: ServerObservation) -> (r: ServerAction)
        ensures
            (final(self).state, r) == old(self).next(cancelled, observation),
    {
        if cancelled || self.state == ServerState::Closed {
            self.state = ServerState::Closed;
            return ServerAction::Exit;
        }
        let (state, action) = match observation {
            ServerObservation::Started | ServerObservation::Waited => (ServerState::Unbound, ServerAction::Bind),
            ServerObservation::Bound => (ServerState::Listening, ServerAction::Accept),
            ServerObservation::BindFailed => (ServerState::Unbound, ServerAction::Sleep(BACKOFF_MS)),
            ServerObservation::Accepted => (ServerState::InSession, ServerAction::Read),
            ServerObservation::AcceptFailed => (ServerState::Unbound, ServerAction::Bind),
            ServerObservation::Forwarded => (ServerState::InSession, ServerAction::Read),
            ServerObservation::Idle => match self.state {
                ServerState::InSession => (ServerState::InSession, ServerAction::Read),
                ServerState::Listening => (ServerState::Listening, ServerAction::Accept),
                _ => (ServerState::Unbound, ServerAction::Bind),
            },
            ServerObservation::Frame(Some(Ok(e))) => (ServerState::InSession, ServerAction::Forward(e)),
            ServerObservation::Frame(Some(Err(e))) => match e {
                Error::Protocol(_) | Error::UnsupportedMessage => (ServerState::InSession, ServerAction::Read),
                _ => (ServerState::Listening, ServerAction::Accept),
            },
            ServerObservation::Frame(None) => (ServerState::Listening, ServerAction::Accept),
        };
        self.state = state;
        action
    }
}

/// An error that concerns one message leaves the session open: the error
/// goes to the reader of that message, the server reads on, and the next
/// event that arrives is forwarded. A text frame that does not hold an event
/// is such an error.
pub proof fn lemma_message_error_keeps_session(
    s: PushServer,
    e: Error,
    reason: String,
    event: MediaEvent,
)
    requires
        s.state == ServerState::InSession,
        message_scoped(e),
    ensures
        frame_outcome(InboundFrame::Malformed(reason)) == Some(
            Err::<MediaEvent, Error>(Error::Protocol(reason)),
        ),
        message_scoped(Error::Protocol(reason)),
        s.next(false, ServerObservation::Frame(Some(Err(e)))) == (
            ServerState::InSession,
            ServerAction::Read,
        ),
        (PushServer { state: s.next(false, ServerObservation::Frame(Some(Err(e)))).0 }).next(
            false,
            ServerObservation::Frame(frame_outcome(InboundFrame::Event(event))),
        ) == (ServerState::InSession, ServerAction::Forward(event)),
{
}

} // verus!
