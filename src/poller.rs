use vstd::prelude::*;

use crate::differ::{diff, event_between};
use crate::{event_model, EventModel, Error, MediaEvent, MediaMetadata, MetadataModel};

verus! {

/// How long to wait before looking for a session again, in milliseconds.
pub const BACKOFF_MS: u64 = 1000;

/// The pause between two refreshes at `update_rate` refreshes a second:
/// `1000 / update_rate` milliseconds, and at least one.
pub open spec fn wait_for_rate(update_rate: u64) -> u64 {
    if update_rate == 0 || update_rate > 1000 {
        1
    } else {
        (1000u64 / update_rate) as u64
    }
}

/// Where the poller of the system source stands.
#[derive(Debug, Clone, Copy, PartialEq, Eq, Structural)]
pub enum PollerState {
    /// No usable session: looking for one
    Searching,
    /// A session was found and is refreshed at the configured rate
    Active,
    /// A call failed: waiting before looking for a session from scratch
    RecoverableError,
    /// Cancelled: the poller has stopped for good
    Closed,
}

/// What came of the action that the poller asked for last.
#[derive(Debug)]
pub enum Observation {
    /// The poller has just started
    Started,
    /// A running session was found
    Found,
    /// No running session was found
    NotFound,
    /// The session answered with this snapshot
    Refreshed(MediaMetadata),
    /// The session is no longer running
    Gone,
    /// A call into the platform failed
    Failed,
    /// The snapshot was stored and the event offered
    Published,
    /// The requested pause is over
    Waited,
}

/// What the poller asks its driver to do next.
#[derive(Debug)]
pub enum PollerAction {
    /// Look for a running session
    Discover,
    /// Read metadata, position and state from the session
    Refresh,
    /// Store the snapshot, and offer the event without waiting (it is
    /// dropped when the channel is full)
    Publish(MediaMetadata, Option<MediaEvent>),
    /// Pause for this many milliseconds
    Sleep(u64),
    /// Stop: the poller is closed
    Exit,
}

/// Mathematical model of a [`PollerAction`].
pub enum ActionModel {
    Discover,
    Refresh,
    Publish(MetadataModel, Option<EventModel>),
    Sleep(u64),
    Exit,
}

impl View for PollerAction {
    type V = ActionModel;

    open spec fn view(&self) -> ActionModel {
        match self {
            PollerAction::Discover => ActionModel::Discover,
            PollerAction::Refresh => ActionModel::Refresh,
            PollerAction::Publish(m, e) => ActionModel::Publish(m@, event_model(*e)),
            PollerAction::Sleep(ms) => ActionModel::Sleep(*ms),
            PollerAction::Exit => ActionModel::Exit,
        }
    }
}

/// The decisions of the background poller of one source: when to look for a
/// session, when to refresh it, what to publish, how long to pause, and when
/// to stop. Its driver carries out each action and reports what came of it.
pub struct Poller {
    pub state: PollerState,
    /// Pause between two refreshes, in milliseconds
    pub wait_ms: u64,
    /// The snapshot published last
    pub last: MediaMetadata,
}

impl Poller {
    /// State and action after `observation`, where `cancelled` tells whether
    /// cancellation was requested.
    pub open spec fn next(self, cancelled: bool, observation: Observation) -> (PollerState, ActionModel) {
        if cancelled || self.state == PollerState::Closed {
            (PollerState::Closed, ActionModel::Exit)
        } else {
            match observation {
                Observation::Started => (PollerState::Searching, ActionModel::Discover),
                Observation::Found => (PollerState::Active, ActionModel::Refresh),
                Observation::NotFound => (PollerState::Searching, ActionModel::Sleep(BACKOFF_MS)),
                Observation::Gone => (PollerState::Searching, ActionModel::Sleep(BACKOFF_MS)),
                Observation::Failed => (PollerState::RecoverableError, ActionModel::Sleep(BACKOFF_MS)),
                Observation::Refreshed(m) => if self.state == PollerState::Active {
                    (PollerState::Active, ActionModel::Publish(m@, event_between(self.last@, m@)))
                } else {
                    (PollerState::Searching, ActionModel::Discover)
                },
                Observation::Published => if self.state == PollerState::Active {
                    (PollerState::Active, ActionModel::Sleep(self.wait_ms))
                } else {
                    (PollerState::Searching, ActionModel::Discover)
                },
                Observation::Waited => if self.state == PollerState::Active {
                    (PollerState::Active, ActionModel::Refresh)
                } else {
                    (PollerState::Searching, ActionModel::Discover)
                },
            }
        }
    }

    /// The snapshot remembered after `observation`.
    pub open spec fn next_last(self, cancelled: bool, observation: Observation) -> MetadataModel {
        match observation {
            Observation::Refreshed(m) => if !cancelled && self.state == PollerState::Active {
                m@
            } else {
                self.last@
            },
            _ => self.last@,
        }
    }

    /// A poller that has not found a session yet, for a source refreshed
    /// `update_rate` times a second.
    pub fn new(update_rate: u64) -> (r: Poller)
        ensures
            r.state == PollerState::Searching,
            r.wait_ms == wait_for_rate(update_rate),
            r.last@ == MetadataModel::empty(),
    {
        let wait_ms = if update_rate == 0 || update_rate > 1000 {
            1
        } else {
            1000 / update_rate
        };
        Poller { state: PollerState::Searching, wait_ms, last: MediaMetadata::default() }
    }

    /// Whether the poller has stopped for good.
    pub fn is_closed(&self) -> (r: bool)
        ensures
            r == (self.state == PollerState::Closed),
    {
        self.state == PollerState::Closed
    }

    /// Whether the poller holds a session.
    pub fn is_running(&self) -> (r: bool)
        ensures
            r == (self.state == PollerState::Active),
    {
        self.state == PollerState::Active
    }

    /// Takes in what came of the last action and decides the next one.
    pub fn step(&mut self, cancelled: bool, observation: Observation) -> (r: PollerAction)
        ensures
            (final(self).state, r@) == old(self).next(cancelled, observation),
            final(self).last@ == old(self).next_last(cancelled, observation),
            final(self).wait_ms == old(self).wait_ms,
    {
        if cancelled || self.state == PollerState::Closed {
            self.state = PollerState::Closed;
            return PollerAction::Exit;
        }
        match observation {
            Observation::Started => {
                self.state = PollerState::Searching;
                PollerAction::Discover
            },
            Observation::Found => {
                self.state = PollerState::Active;
                PollerAction::Refresh
            },
            Observation::NotFound | Observation::Gone => {
                self.state = PollerState::Searching;
                PollerAction::Sleep(BACKOFF_MS)
            },
            Observation::Failed => {
                self.state = PollerState::RecoverableError;
                PollerAction::Sleep(BACKOFF_MS)
            },
            Observation::Refreshed(m) => {
                if self.state == PollerState::Active {
                    let event = diff(&self.last, &m);
                    self.last = m.clone();
                    PollerAction::Publish(m, event)
                } else {
                    self.state = PollerState::Searching;
                    PollerAction::Discover
                }
            },
            Observation::Published => {
                if self.state == PollerState::Active {
                    PollerAction::Sleep(self.wait_ms)
                } else {
                    self.state = PollerState::Searching;
                    PollerAction::Discover
                }
            },
            Observation::Waited => {
                if self.state == PollerState::Active {
                    PollerAction::Refresh
                } else {
                    self.state = PollerState::Searching;
                    PollerAction::Discover
                }
            },
        }
    }
}

/// What a read of a source's snapshot store returns: the snapshot, or
/// `Closed` once the source has stopped.
pub fn read_snapshot(closed: bool, store: &MediaMetadata) -> (r: Result<MediaMetadata, Error>)
    ensures
        closed ==> r == Err::<MediaMetadata, Error>(Error::Closed),
        !closed ==> (r matches Ok(m) && m@ == store@),
{
    if closed {
        Err(Error::Closed)
    } else {
        Ok(store.clone())
    }
}


/// Once cancellation is requested the poller closes and stops, and every
/// later step, whether or not cancellation is still requested, finds it
/// closed and stops again. No pause it asks for is longer than
/// [`BACKOFF_MS`], so a driver that looks at the cancellation flag before
/// each action sees it within one backoff interval.
pub proof fn lemma_cancellation_closes(
    p: Poller,
    update_rate: u64,
    cancelled: bool,
    observation: Observation,
    later_cancelled: bool,
    later: Observation,
)
    requires
        p.wait_ms == wait_for_rate(update_rate),
    ensures
        p.next(true, observation) == (PollerState::Closed, ActionModel::Exit),
        (Poller { state: p.next(true, observation).0, ..p }).next(later_cancelled, later) == (
            PollerState::Closed,
            ActionModel::Exit,
        ),
        p.next(cancelled, observation).1 matches ActionModel::Sleep(ms) ==> ms <= BACKOFF_MS,
{
    assert(wait_for_rate(update_rate) <= BACKOFF_MS) by (nonlinear_arith)
        requires
            update_rate != 0 && update_rate <= 1000 ==> wait_for_rate(update_rate) == 1000u64
                / update_rate,
            update_rate == 0 || update_rate > 1000 ==> wait_for_rate(update_rate) == 1,
            BACKOFF_MS == 1000,
    ;
}

/// A session that disappears is looked for again after one backoff, and
/// once it reappears the same poller is active again.
pub proof fn lemma_lost_session_recovers(p: Poller)
    requires
        p.state == PollerState::Active,
    ensures
        p.next(false, Observation::Gone) == (PollerState::Searching, ActionModel::Sleep(BACKOFF_MS)),
        (Poller { state: PollerState::Searching, ..p }).next(false, Observation::Waited) == (
            PollerState::Searching,
            ActionModel::Discover,
        ),
        (Poller { state: PollerState::Searching, ..p }).next(false, Observation::Found) == (
            PollerState::Active,
            ActionModel::Refresh,
        ),
{
}

} // verus!
