use vstd::prelude::*;

use crate::{Error, MediaEvent, MediaMetadata, MediaState};

verus! {

/// Port that the push protocol listens on by default.
pub const DEFAULT_PORT: u16 = 19532;

/// The loopback IPv4 address, 127.0.0.1, as a number.
pub const LOCALHOST_V4: u32 = 0x7f00_0001;

/// An IP address as a number, in network order of its bytes (the most
/// significant byte first).
#[derive(Debug, Clone, Copy, PartialEq, Eq, Structural, PartialOrd, Ord, Hash)]
pub enum IpAddress {
    V4(u32),
    V6(u128),
}

/// An IP address and a port.
#[derive(Debug, Clone, Copy, PartialEq, Eq, Structural, PartialOrd, Ord, Hash)]
pub struct SocketAddress {
    pub ip: IpAddress,
    pub port: u16,
}

/// Where the push protocol listens.
#[derive(Debug, Clone, Copy, PartialEq, Eq, Structural, PartialOrd, Ord, Hash)]
pub enum WebsocketAddr {
    /// The loopback address, on this port
    Local(u16),
    /// This address
    Addr(SocketAddress),
    /// The loopback address, on [`DEFAULT_PORT`]
    Default,
}

impl Default for WebsocketAddr {
    fn default() -> (r: WebsocketAddr)
        ensures
            r == WebsocketAddr::Default,
    {
        WebsocketAddr::Default
    }
}

/// The address that `addr` stands for.
pub open spec fn address_of(addr: WebsocketAddr) -> SocketAddress {
    match addr {
        WebsocketAddr::Local(port) => SocketAddress { ip: IpAddress::V4(LOCALHOST_V4), port },
        WebsocketAddr::Addr(a) => a,
        WebsocketAddr::Default => SocketAddress { ip: IpAddress::V4(LOCALHOST_V4), port: DEFAULT_PORT },
    }
}

impl WebsocketAddr {
    /// The socket address to bind.
    pub fn resolve(self) -> (r: SocketAddress)
        ensures
            r == address_of(self),
    {
        match self {
            WebsocketAddr::Local(port) => SocketAddress { ip: IpAddress::V4(LOCALHOST_V4), port },
            WebsocketAddr::Addr(a) => a,
            WebsocketAddr::Default => SocketAddress { ip: IpAddress::V4(LOCALHOST_V4), port: DEFAULT_PORT },
        }
    }
}

/// Which source wins when both qualify.
#[derive(Debug, Clone, Copy, PartialEq, Eq, Structural, PartialOrd, Ord, Hash)]
pub enum MediaSourcePriority {
    Websocket,
    System,
}

impl Default for MediaSourcePriority {
    fn default() -> (r: MediaSourcePriority)
        ensures
            r == MediaSourcePriority::Websocket,
    {
        MediaSourcePriority::Websocket
    }
}

/// One of the two sources.
#[derive(Debug, Clone, Copy, PartialEq, Eq, Structural, PartialOrd, Ord, Hash)]
pub enum SourceKind {
    Websocket,
    System,
}

/// The source that a priority names.
pub open spec fn kind_of(p: MediaSourcePriority) -> SourceKind {
    match p {
        MediaSourcePriority::Websocket => SourceKind::Websocket,
        MediaSourcePriority::System => SourceKind::System,
    }
}

/// The source that is not `k`.
pub open spec fn other_kind(k: SourceKind) -> SourceKind {
    match k {
        SourceKind::Websocket => SourceKind::System,
        SourceKind::System => SourceKind::Websocket,
    }
}

/// What one source answered to a poll: `None` where it is not configured.
pub type Answer = Option<Result<MediaMetadata, Error>>;

/// The state of a source that answered with a snapshot.
pub open spec fn healthy_state(a: Answer) -> Option<MediaState> {
    match a {
        Some(Ok(m)) => Some(m.state),
        _ => None,
    }
}

/// The answer of source `k`.
pub open spec fn answer_of(k: SourceKind, system: Answer, websocket: Answer) -> Answer {
    match k {
        SourceKind::System => system,
        SourceKind::Websocket => websocket,
    }
}

/// The position that a source answered with, where it answered with a
/// snapshot.
pub open spec fn healthy_elapsed(a: Answer) -> Option<u64> {
    match a {
        Some(Ok(m)) => Some(m.elapsed),
        _ => None,
    }
}

fn elapsed_of(a: &Answer) -> (r: Option<u64>)
    ensures
        r == healthy_elapsed(*a),
{
    match a {
        Some(Ok(m)) => Some(m.elapsed),
        _ => None,
    }
}

/// How a source stands at a poll.
#[derive(Debug, Clone, Copy, PartialEq, Eq, Structural)]
pub enum SourceStatus {
    /// The source is not configured
    Absent,
    /// The source failed to answer
    Failed,
    /// The source answered with a snapshot in this state
    Ready(MediaState),
}

/// How a source stands, from what it answered.
pub open spec fn status_of(a: Answer) -> SourceStatus {
    match a {
        None => SourceStatus::Absent,
        Some(Err(_)) => SourceStatus::Failed,
        Some(Ok(m)) => SourceStatus::Ready(m.state),
    }
}

/// How a source stands, from what it answered.
pub fn status(a: &Answer) -> (r: SourceStatus)
    ensures
        r == status_of(*a),
{
    match a {
        None => SourceStatus::Absent,
        Some(Err(_)) => SourceStatus::Failed,
        Some(Ok(m)) => SourceStatus::Ready(m.state),
    }
}

/// The status of source `k`.
pub open spec fn status_for(k: SourceKind, system: SourceStatus, websocket: SourceStatus) -> SourceStatus {
    match k {
        SourceKind::System => system,
        SourceKind::Websocket => websocket,
    }
}

/// Arbitration between the system source and the push source.
///
/// Without `hybrid`, the prioritized source answers when it has a snapshot,
/// else the other. With `hybrid` and two snapshots, a source that is playing
/// wins over one that is not; when both play, `priority` breaks the tie; when
/// neither plays, the source that won last keeps winning, so that two idle
/// sources do not take turns. The winner is returned as it is: it is not
/// merged with the other snapshot.
#[derive(Debug, Clone, Copy, PartialEq, Eq, Structural)]
pub struct Arbiter {
    pub priority: MediaSourcePriority,
    pub hybrid: bool,
    /// The source that won the last hybrid arbitration
    pub last_played: SourceKind,
}

impl Arbiter {
    /// The winner between two snapshots in states `system` and `websocket`.
    pub open spec fn hybrid_winner(self, system: MediaState, websocket: MediaState) -> SourceKind {
        let s = system == MediaState::Playing;
        let w = websocket == MediaState::Playing;
        if s && !w {
            SourceKind::System
        } else if w && !s {
            SourceKind::Websocket
        } else if s && w {
            kind_of(self.priority)
        } else {
            self.last_played
        }
    }

    /// Both sources have a snapshot and arbitration is hybrid.
    pub open spec fn arbitrates_among(self, system: SourceStatus, websocket: SourceStatus) -> bool {
        self.hybrid && system is Ready && websocket is Ready
    }

    /// The source that wins, from how each source stands; `None` where no
    /// source is configured.
    pub open spec fn chosen_among(self, system: SourceStatus, websocket: SourceStatus) -> Option<SourceKind> {
        let p = kind_of(self.priority);
        let o = other_kind(p);
        if self.arbitrates_among(system, websocket) {
            Some(self.hybrid_winner(system->Ready_0, websocket->Ready_0))
        } else if status_for(p, system, websocket) is Ready {
            Some(p)
        } else if status_for(o, system, websocket) is Ready {
            Some(o)
        } else if !(status_for(p, system, websocket) is Absent) {
            Some(p)
        } else if !(status_for(o, system, websocket) is Absent) {
            Some(o)
        } else {
            None
        }
    }

    /// The source remembered after a poll, from how each source stands.
    pub open spec fn next_last_among(self, system: SourceStatus, websocket: SourceStatus) -> SourceKind {
        if self.arbitrates_among(system, websocket) {
            self.chosen_among(system, websocket)->0
        } else {
            self.last_played
        }
    }

    /// Both sources answered with a snapshot and arbitration is hybrid.
    pub open spec fn arbitrates(self, system: Answer, websocket: Answer) -> bool {
        self.arbitrates_among(status_of(system), status_of(websocket))
    }

    /// The source whose answer a poll returns; `None` where no source is
    /// configured.
    pub open spec fn chosen(self, system: Answer, websocket: Answer) -> Option<SourceKind> {
        self.chosen_among(status_of(system), status_of(websocket))
    }

    /// What a poll returns.
    pub open spec fn selected(self, system: Answer, websocket: Answer) -> Result<MediaMetadata, Error> {
        match self.chosen(system, websocket) {
            Some(k) => answer_of(k, system, websocket)->0,
            None => Err(Error::NotEnabled),
        }
    }

    /// What a poll of the position returns: the position of the source that
    /// a poll picks; where that is zero, which counts as unknown, the
    /// position of the other source, where it answered with a snapshot.
    pub open spec fn selected_elapsed(self, system: Answer, websocket: Answer) -> Result<u64, Error> {
        match self.chosen(system, websocket) {
            Some(k) => match answer_of(k, system, websocket) {
                Some(Ok(m)) => if m.elapsed == 0 && healthy_elapsed(
                    answer_of(other_kind(k), system, websocket),
                ) is Some {
                    Ok(healthy_elapsed(answer_of(other_kind(k), system, websocket))->0)
                } else {
                    Ok(m.elapsed)
                },
                Some(Err(e)) => Err(e),
                None => Err(Error::NotEnabled),
            },
            None => Err(Error::NotEnabled),
        }
    }

    /// The source remembered after a poll.
    pub open spec fn next_last_played(self, system: Answer, websocket: Answer) -> SourceKind {
        self.next_last_among(status_of(system), status_of(websocket))
    }

    /// An arbiter that has not arbitrated yet.
    pub open spec fn new_spec(priority: MediaSourcePriority, hybrid: bool) -> Arbiter {
        Arbiter { priority, hybrid, last_played: kind_of(priority) }
    }

    /// An arbiter that has not arbitrated yet: the prioritized source counts
    /// as the last winner.
    pub fn new(priority: MediaSourcePriority, hybrid: bool) -> (r: Arbiter)
        ensures
            r == Arbiter::new_spec(priority, hybrid),
    {
        let last_played = match priority {
            MediaSourcePriority::Websocket => SourceKind::Websocket,
            MediaSourcePriority::System => SourceKind::System,
        };
        Arbiter { priority, hybrid, last_played }
    }

    /// Decides which source wins from how each source stands, and
    /// remembers the winner of a hybrid arbitration. A caller that holds the
    /// snapshots in place returns the winner's.
    pub fn pick(&mut self, system: SourceStatus, websocket: SourceStatus) -> (r: Option<SourceKind>)
        ensures
            r == old(self).chosen_among(system, websocket),
            final(self).priority == old(self).priority,
            final(self).hybrid == old(self).hybrid,
            final(self).last_played == old(self).next_last_among(system, websocket),
    {
        if self.hybrid {
            if let SourceStatus::Ready(s) = system {
                if let SourceStatus::Ready(w) = websocket {
                    let s_playing = s == MediaState::Playing;
                    let w_playing = w == MediaState::Playing;
                    let winner = if s_playing && !w_playing {
                        SourceKind::System
                    } else if w_playing && !s_playing {
                        SourceKind::Websocket
                    } else if s_playing && w_playing {
                        match self.priority {
                            MediaSourcePriority::Websocket => SourceKind::Websocket,
                            MediaSourcePriority::System => SourceKind::System,
                        }
                    } else {
                        self.last_played
                    };
                    self.last_played = winner;
                    return Some(winner);
                }
            }
        }
        let (p, o, first, second) = match self.priority {
            MediaSourcePriority::System => (SourceKind::System, SourceKind::Websocket, system, websocket),
            MediaSourcePriority::Websocket => (SourceKind::Websocket, SourceKind::System, websocket, system),
        };
        if let SourceStatus::Ready(_) = first {
            Some(p)
        } else if let SourceStatus::Ready(_) = second {
            Some(o)
        } else if first != SourceStatus::Absent {
            Some(p)
        } else if second != SourceStatus::Absent {
            Some(o)
        } else {
            None
        }
    }

    /// Picks the position that a poll of the position returns, by the same
    /// arbitration as [`Arbiter::select`].
    pub fn select_elapsed(&mut self, system: Answer, websocket: Answer) -> (r: Result<u64, Error>)
        ensures
            r == old(self).selected_elapsed(system, websocket),
            final(self).priority == old(self).priority,
            final(self).hybrid == old(self).hybrid,
            final(self).last_played == old(self).next_last_played(system, websocket),
    {
        let system_elapsed = elapsed_of(&system);
        let websocket_elapsed = elapsed_of(&websocket);
        let k = self.pick(status(&system), status(&websocket));
        let (answer, other) = match k {
            Some(SourceKind::System) => (system, websocket_elapsed),
            Some(SourceKind::Websocket) => (websocket, system_elapsed),
            None => {
                return Err(Error::NotEnabled);
            },
        };
        match answer {
            Some(Ok(m)) => {
                if m.elapsed == 0 {
                    if let Some(e) = other {
                        return Ok(e);
                    }
                }
                Ok(m.elapsed)
            },
            Some(Err(e)) => Err(e),
            None => Err(Error::NotEnabled),
        }
    }

    /// Picks the answer that a poll returns out of what the system source
    /// and the push source answered, and remembers the winner of a hybrid
    /// arbitration.
    pub fn select(&mut self, system: Answer, websocket: Answer) -> (r: Result<MediaMetadata, Error>)
        ensures
            r == old(self).selected(system, websocket),
            final(self).priority == old(self).priority,
            final(self).hybrid == old(self).hybrid,
            final(self).last_played == old(self).next_last_played(system, websocket),
    {
        let k = self.pick(status(&system), status(&websocket));
        match k {
            Some(SourceKind::System) => match system {
                Some(a) => a,
                None => Err(Error::NotEnabled),
            },
            Some(SourceKind::Websocket) => match websocket {
                Some(a) => a,
                None => Err(Error::NotEnabled),
            },
            None => Err(Error::NotEnabled),
        }
    }
}


/// Under hybrid arbitration, while neither source is playing, two
/// consecutive polls return the same source: the one that won last.
pub proof fn lemma_idle_sources_keep_winner(
    a: Arbiter,
    system1: Answer,
    websocket1: Answer,
    system2: Answer,
    websocket2: Answer,
)
    requires
        a.hybrid,
        healthy_state(system1) matches Some(s) && s != MediaState::Playing,
        healthy_state(websocket1) matches Some(s) && s != MediaState::Playing,
        healthy_state(system2) matches Some(s) && s != MediaState::Playing,
        healthy_state(websocket2) matches Some(s) && s != MediaState::Playing,
    ensures
        a.chosen(system1, websocket1) == Some(a.last_played),
        a.next_last_played(system1, websocket1) == a.last_played,
        (Arbiter { last_played: a.next_last_played(system1, websocket1), ..a }).chosen(
            system2,
            websocket2,
        ) == Some(a.last_played),
{
}

/// Configuration of the sources and of their arbitration.
#[derive(Debug, Clone, Copy, PartialEq, Eq, Structural)]
pub struct MediaSourceConfig {
    /// Where the push protocol listens
    pub addr: WebsocketAddr,
    /// Which source wins a tie
    pub priority: MediaSourcePriority,
    /// How long to wait for an event, in milliseconds
    pub timeout: u64,
    /// Refreshes of the system source per second
    pub update_rate: u64,
    /// Whether a playing source wins over the prioritized one
    pub hybrid: bool,
    /// Whether the push source runs
    pub websocket_enabled: bool,
    /// Whether the system source runs
    pub system_enabled: bool,
}

impl Default for MediaSourceConfig {
    /// Both sources, hybrid arbitration with the push source first, 30
    /// refreshes a second, and events awaited for 5 seconds.
    fn default() -> (r: MediaSourceConfig)
        ensures
            r == (MediaSourceConfig {
                addr: WebsocketAddr::Default,
                priority: MediaSourcePriority::Websocket,
                timeout: 5000,
                update_rate: 30,
                hybrid: true,
                websocket_enabled: true,
                system_enabled: true,
            }),
    {
        MediaSourceConfig {
            addr: WebsocketAddr::Default,
            priority: MediaSourcePriority::Websocket,
            timeout: 5000,
            update_rate: 30,
            hybrid: true,
            websocket_enabled: true,
            system_enabled: true,
        }
    }
}

impl MediaSourceConfig {
    /// The default configuration with no source enabled and without hybrid
    /// arbitration.
    pub fn new() -> (r: MediaSourceConfig)
        ensures
            r == (MediaSourceConfig {
                addr: WebsocketAddr::Default,
                priority: MediaSourcePriority::Websocket,
                timeout: 5000,
                update_rate: 30,
                hybrid: false,
                websocket_enabled: false,
                system_enabled: false,
            }),
    {
        MediaSourceConfig {
            hybrid: false,
            websocket_enabled: false,
            system_enabled: false,
            ..MediaSourceConfig::default()
        }
    }

    pub fn set_priority(self, priority: MediaSourcePriority) -> (r: MediaSourceConfig)
        ensures
            r == (MediaSourceConfig { priority, ..self }),
    {
        MediaSourceConfig { priority, ..self }
    }

    pub fn set_update_rate(self, update_rate: u64) -> (r: MediaSourceConfig)
        ensures
            r == (MediaSourceConfig { update_rate, ..self }),
    {
        MediaSourceConfig { update_rate, ..self }
    }

    pub fn set_hybrid(self, hybrid: bool) -> (r: MediaSourceConfig)
        ensures
            r == (MediaSourceConfig { hybrid, ..self }),
    {
        MediaSourceConfig { hybrid, ..self }
    }

    pub fn enable_system(self) -> (r: MediaSourceConfig)
        ensures
            r == (MediaSourceConfig { system_enabled: true, ..self }),
    {
        MediaSourceConfig { system_enabled: true, ..self }
    }

    pub fn enable_websocket(self, addr: WebsocketAddr) -> (r: MediaSourceConfig)
        ensures
            r == (MediaSourceConfig { addr, websocket_enabled: true, ..self }),
    {
        MediaSourceConfig { addr, websocket_enabled: true, ..self }
    }
}

/// A source of metadata: the system's media session or the push protocol.
pub trait MediaSource: Sized {
    /// Starts the source; fails with `NotEnabled` where `cfg` disables it.
    fn create(cfg: MediaSourceConfig) -> Result<Self, Error>;

    /// Whether the source has shut down for good.
    fn is_closed(&self) -> bool;

    /// Whether the source currently has a session to read from.
    fn is_running(&self) -> bool;

    /// The latest snapshot; fails with `Closed` once the source shut down.
    fn poll(&self) -> Result<MediaMetadata, Error>;

    /// The next event, waiting for it at most the configured timeout.
    fn next(&self) -> Result<MediaEvent, Error>;
}

/// What starting the configured sources gives: the sources that started,
/// where at least one did; otherwise the failure, or both failures where
/// both sources failed.
pub open spec fn started<S, W>(
    system: Option<Result<S, Error>>,
    websocket: Option<Result<W, Error>>,
) -> Result<(Option<S>, Option<W>), Error> {
    match (system, websocket) {
        (None, None) => Err(Error::NotEnabled),
        (Some(Err(a)), Some(Err(b))) => Err(Error::FailedToCreateListener(Box::new(a), Box::new(b))),
        (Some(Err(a)), None) => Err(a),
        (None, Some(Err(b))) => Err(b),
        (s, w) => Ok(
            (
                match s {
                    Some(Ok(x)) => Some(x),
                    _ => None,
                },
                match w {
                    Some(Ok(x)) => Some(x),
                    _ => None,
                },
            ),
        ),
    }
}

/// Keeps the sources that started; fails only where every configured
/// source failed.
pub fn combine_sources<S, W>(
    system: Option<Result<S, Error>>,
    websocket: Option<Result<W, Error>>,
) -> (r: Result<(Option<S>, Option<W>), Error>)
    ensures
        r == started(system, websocket),
{
    match (system, websocket) {
        (None, None) => Err(Error::NotEnabled),
        (Some(Err(a)), Some(Err(b))) => Err(Error::FailedToCreateListener(Box::new(a), Box::new(b))),
        (Some(Err(a)), None) => Err(a),
        (None, Some(Err(b))) => Err(b),
        (s, w) => Ok(
            (
                match s {
                    Some(Ok(x)) => Some(x),
                    _ => None,
                },
                match w {
                    Some(Ok(x)) => Some(x),
                    _ => None,
                },
            ),
        ),
    }
}

/// The listener made of the sources that started, or the failure.
pub open spec fn listener_from<S, W>(
    cfg: MediaSourceConfig,
    sources: Result<(Option<S>, Option<W>), Error>,
) -> Result<MediaListener<S, W>, Error> {
    match sources {
        Ok((system, websocket)) => Ok(
            MediaListener { system, websocket, arbiter: Arbiter::new_spec(cfg.priority, cfg.hybrid), cfg },
        ),
        Err(e) => Err(e),
    }
}

/// Whether the sources are all shut down, from what each present one
/// answered (`None` where a source is missing).
pub open spec fn all_closed(system: Option<bool>, websocket: Option<bool>) -> bool {
    (system is Some || websocket is Some) && system != Some(false) && websocket != Some(false)
}

/// Whether some source is running, from what each present one answered.
pub open spec fn any_running(system: Option<bool>, websocket: Option<bool>) -> bool {
    system == Some(true) || websocket == Some(true)
}

/// What a read of the next event gives: the prioritized source's event,
/// else the other source's answer, else the prioritized source's error.
pub open spec fn next_outcome(
    priority: MediaSourcePriority,
    system: Option<Result<MediaEvent, Error>>,
    websocket: Option<Result<MediaEvent, Error>>,
) -> Result<MediaEvent, Error> {
    let (first, second) = match priority {
        MediaSourcePriority::System => (system, websocket),
        MediaSourcePriority::Websocket => (websocket, system),
    };
    match first {
        Some(Ok(e)) => Ok(e),
        Some(Err(e)) => match second {
            Some(a) => a,
            None => Err(e),
        },
        None => match second {
            Some(a) => a,
            None => Err(Error::NotEnabled),
        },
    }
}

/// Whether the sources are all shut down, from what each present one
/// answered.
pub fn closed_from(system: Option<bool>, websocket: Option<bool>) -> (r: bool)
    ensures
        r == all_closed(system, websocket),
{
    (system.is_some() || websocket.is_some()) && system != Some(false) && websocket != Some(false)
}

/// Whether some source is running, from what each present one answered.
pub fn running_from(system: Option<bool>, websocket: Option<bool>) -> (r: bool)
    ensures
        r == any_running(system, websocket),
{
    system == Some(true) || websocket == Some(true)
}

/// The event that a read returns, from what each source answered (`None`
/// for a source that is missing or was not asked): the prioritized source's
/// event, else the other source's answer, else the prioritized source's
/// error.
pub fn fallback_event(
    priority: MediaSourcePriority,
    system: Option<Result<MediaEvent, Error>>,
    websocket: Option<Result<MediaEvent, Error>>,
) -> (r: Result<MediaEvent, Error>)
    ensures
        r == next_outcome(priority, system, websocket),
{
    let (first, second) = match priority {
        MediaSourcePriority::System => (system, websocket),
        MediaSourcePriority::Websocket => (websocket, system),
    };
    match first {
        Some(Ok(e)) => Ok(e),
        Some(Err(e)) => match second {
            Some(a) => a,
            None => Err(e),
        },
        None => match second {
            Some(a) => a,
            None => Err(Error::NotEnabled),
        },
    }
}

/// The system source and the push source behind one arbitrated view.
pub struct MediaListener<S, W> {
    pub system: Option<S>,
    pub websocket: Option<W>,
    pub arbiter: Arbiter,
    pub cfg: MediaSourceConfig,
}

impl<S: MediaSource, W: MediaSource> MediaListener<S, W> {
    /// Starts each enabled source. Fails with `NotEnabled` where none is
    /// enabled, and where every enabled source fails, with its error (both
    /// errors, where both fail).
    pub fn create(cfg: MediaSourceConfig) -> (r: Result<MediaListener<S, W>, Error>)
        ensures
            exists|system: Option<Result<S, Error>>, websocket: Option<Result<W, Error>>|
                {
                    &&& (system is Some <==> cfg.system_enabled)
                    &&& (websocket is Some <==> cfg.websocket_enabled)
                    &&& r == listener_from(cfg, #[trigger] started(system, websocket))
                },
    {
        if !cfg.system_enabled && !cfg.websocket_enabled {
            assert(started::<S, W>(None, None) == Err::<(Option<S>, Option<W>), Error>(Error::NotEnabled));
            return Err(Error::NotEnabled);
        }
        let system = if cfg.system_enabled {
            Some(S::create(cfg))
        } else {
            None
        };
        let websocket = if cfg.websocket_enabled {
            Some(W::create(cfg))
        } else {
            None
        };
        match combine_sources(system, websocket) {
            Ok((system, websocket)) => Ok(
                MediaListener { system, websocket, arbiter: Arbiter::new(cfg.priority, cfg.hybrid), cfg },
            ),
            Err(e) => Err(e),
        }
    }

    /// Whether every source has shut down for good.
    pub fn is_closed(&self) -> (r: bool)
        ensures
            exists|system: Option<bool>, websocket: Option<bool>|
                {
                    &&& (system is Some <==> self.system is Some)
                    &&& (websocket is Some <==> self.websocket is Some)
                    &&& r == #[trigger] all_closed(system, websocket)
                },
    {
        let system = match &self.system {
            Some(s) => Some(s.is_closed()),
            None => None,
        };
        let websocket = match &self.websocket {
            Some(w) => Some(w.is_closed()),
            None => None,
        };
        closed_from(system, websocket)
    }

    /// Whether some source currently has a session to read from.
    pub fn is_running(&self) -> (r: bool)
        ensures
            exists|system: Option<bool>, websocket: Option<bool>|
                {
                    &&& (system is Some <==> self.system is Some)
                    &&& (websocket is Some <==> self.websocket is Some)
                    &&& r == #[trigger] any_running(system, websocket)
                },
    {
        let system = match &self.system {
            Some(s) => Some(s.is_running()),
            None => None,
        };
        let websocket = match &self.websocket {
            Some(w) => Some(w.is_running()),
            None => None,
        };
        running_from(system, websocket)
    }

    /// Polls each source and returns the answer that arbitration picks.
    pub fn poll(&mut self) -> (r: Result<MediaMetadata, Error>)
        ensures
            final(self).system == old(self).system,
            final(self).websocket == old(self).websocket,
            final(self).cfg == old(self).cfg,
            exists|system: Answer, websocket: Answer|
                {
                    &&& (system is Some <==> old(self).system is Some)
                    &&& (websocket is Some <==> old(self).websocket is Some)
                    &&& r == old(self).arbiter.selected(system, websocket)
                    &&& final(self).arbiter == (Arbiter {
                        last_played: old(self).arbiter.next_last_played(system, websocket),
                        ..old(self).arbiter
                    })
                },
    {
        let system = match &self.system {
            Some(s) => Some(s.poll()),
            None => None,
        };
        let websocket = match &self.websocket {
            Some(w) => Some(w.poll()),
            None => None,
        };
        let r = self.arbiter.select(system, websocket);
        r
    }

    /// Polls each source and returns the position that arbitration picks.
    pub fn poll_elapsed(&mut self) -> (r: Result<u64, Error>)
        ensures
            final(self).system == old(self).system,
            final(self).websocket == old(self).websocket,
            final(self).cfg == old(self).cfg,
            exists|system: Answer, websocket: Answer|
                {
                    &&& (system is Some <==> old(self).system is Some)
                    &&& (websocket is Some <==> old(self).websocket is Some)
                    &&& r == old(self).arbiter.selected_elapsed(system, websocket)
                    &&& final(self).arbiter == (Arbiter {
                        last_played: old(self).arbiter.next_last_played(system, websocket),
                        ..old(self).arbiter
                    })
                },
    {
        let system = match &self.system {
            Some(s) => Some(s.poll()),
            None => None,
        };
        let websocket = match &self.websocket {
            Some(w) => Some(w.poll()),
            None => None,
        };
        self.arbiter.select_elapsed(system, websocket)
    }

    /// The next event: from the prioritized source, or from the other where
    /// that one fails or is missing.
    pub fn next(&self) -> (r: Result<MediaEvent, Error>)
        ensures
            exists|system: Option<Result<MediaEvent, Error>>, websocket: Option<Result<MediaEvent, Error>>|
                {
                    &&& (system is Some <==> self.system is Some)
                    &&& (websocket is Some <==> self.websocket is Some)
                    &&& r == #[trigger] next_outcome(self.cfg.priority, system, websocket)
                },
    {
        let system_first = match self.cfg.priority {
            MediaSourcePriority::System => true,
            MediaSourcePriority::Websocket => false,
        };
        let first = if system_first {
            match &self.system {
                Some(s) => Some(s.next()),
                None => None,
            }
        } else {
            match &self.websocket {
                Some(w) => Some(w.next()),
                None => None,
            }
        };
        let first_failed = !matches!(first, Some(Ok(_)));
        let second = if !first_failed {
            None
        } else if system_first {
            match &self.websocket {
                Some(w) => Some(w.next()),
                None => None,
            }
        } else {
            match &self.system {
                Some(s) => Some(s.next()),
                None => None,
            }
        };
        let ghost second_present = if system_first {
            self.websocket is Some
        } else {
            self.system is Some
        };
        let ghost g_first = first;
        let ghost g_second = if first_failed {
            second
        } else if second_present {
            Some(Err(Error::NotEnabled))
        } else {
            None
        };
        let r = if system_first {
            fallback_event(self.cfg.priority, first, second)
        } else {
            fallback_event(self.cfg.priority, second, first)
        };
        proof {
            if system_first {
                assert(r == next_outcome(self.cfg.priority, g_first, g_second));
            } else {
                assert(r == next_outcome(self.cfg.priority, g_second, g_first));
            }
        }
        r
    }
}

} // verus!
