use currently_playing::poller::{
    read_snapshot, Observation, Poller, PollerAction, PollerState, BACKOFF_MS,
};
use currently_playing::{Error, MediaEvent, MediaMetadata, MediaState};

fn snap(title: &str, state: MediaState, elapsed: u64) -> MediaMetadata {
    let mut m = MediaMetadata::default();
    m.title = title.to_string();
    m.artists = vec!["Artist".to_string()];
    m.state = state;
    m.elapsed = elapsed;
    m
}

#[test]
fn wait_follows_update_rate() {
    assert_eq!(Poller::new(30).wait_ms, 33);
    assert_eq!(Poller::new(1).wait_ms, 1000);
    assert_eq!(Poller::new(0).wait_ms, 1);
    assert_eq!(Poller::new(2000).wait_ms, 1);
    assert_eq!(Poller::new(1000).wait_ms, 1);
}

#[test]
fn session_lost_and_found_again() {
    let mut p = Poller::new(10);
    assert!(matches!(p.step(false, Observation::Started), PollerAction::Discover));
    assert!(matches!(p.step(false, Observation::Found), PollerAction::Refresh));
    assert_eq!(p.state, PollerState::Active);
    assert!(p.is_running());
    let a = p.step(false, Observation::Refreshed(snap("A", MediaState::Playing, 5)));
    match a {
        PollerAction::Publish(m, e) => {
            assert_eq!(m.title, "A");
            assert!(matches!(e, Some(MediaEvent::MediaChanged(_))));
        }
        _ => panic!("expected a publish"),
    }
    assert!(matches!(p.step(false, Observation::Published), PollerAction::Sleep(100)));
    assert!(matches!(p.step(false, Observation::Waited), PollerAction::Refresh));
    // the session disappears mid-poll
    assert!(matches!(p.step(false, Observation::Gone), PollerAction::Sleep(BACKOFF_MS)));
    assert_eq!(p.state, PollerState::Searching);
    assert!(!p.is_running());
    assert!(matches!(p.step(false, Observation::Waited), PollerAction::Discover));
    assert!(matches!(p.step(false, Observation::NotFound), PollerAction::Sleep(BACKOFF_MS)));
    assert!(matches!(p.step(false, Observation::Waited), PollerAction::Discover));
    assert!(matches!(p.step(false, Observation::Found), PollerAction::Refresh));
    assert_eq!(p.state, PollerState::Active);
    // the same track again, still playing: only its position is reported
    match p.step(false, Observation::Refreshed(snap("A", MediaState::Playing, 900))) {
        PollerAction::Publish(_, e) => assert_eq!(e, Some(MediaEvent::ProgressChanged(900))),
        _ => panic!("expected a publish"),
    }
}

#[test]
fn failure_restarts_discovery() {
    let mut p = Poller::new(10);
    p.step(false, Observation::Started);
    p.step(false, Observation::Found);
    assert!(matches!(p.step(false, Observation::Failed), PollerAction::Sleep(BACKOFF_MS)));
    assert_eq!(p.state, PollerState::RecoverableError);
    assert!(matches!(p.step(false, Observation::Waited), PollerAction::Discover));
    assert_eq!(p.state, PollerState::Searching);
}

#[test]
fn paused_and_unchanged_publishes_no_event() {
    let mut p = Poller::new(10);
    p.step(false, Observation::Started);
    p.step(false, Observation::Found);
    p.step(false, Observation::Refreshed(snap("A", MediaState::Paused, 5)));
    match p.step(false, Observation::Refreshed(snap("A", MediaState::Paused, 5))) {
        PollerAction::Publish(m, e) => {
            assert_eq!(m.elapsed, 5);
            assert_eq!(e, None);
        }
        _ => panic!("expected a publish"),
    }
}

#[test]
fn cancellation_closes() {
    let mut p = Poller::new(10);
    p.step(false, Observation::Started);
    p.step(false, Observation::Found);
    assert!(matches!(p.step(true, Observation::Waited), PollerAction::Exit));
    assert!(p.is_closed());
    assert!(matches!(p.step(false, Observation::Found), PollerAction::Exit));
    assert!(p.is_closed());
    let store = snap("A", MediaState::Playing, 5);
    assert_eq!(read_snapshot(p.is_closed(), &store), Err(Error::Closed));
}

#[test]
fn open_store_reads_snapshot() {
    let store = snap("A", MediaState::Playing, 5);
    assert_eq!(read_snapshot(false, &store), Ok(store.clone()));
}
