use currently_playing::differ::diff;
use currently_playing::{MediaEvent, MediaMetadata, MediaState};

fn track(title: &str, artist: &str, state: MediaState, elapsed: u64) -> MediaMetadata {
    let mut m = MediaMetadata::default();
    m.title = title.to_string();
    m.artists = vec![artist.to_string()];
    m.state = state;
    m.elapsed = elapsed;
    m
}

#[test]
fn new_track_gives_media_changed() {
    let a = track("A", "X", MediaState::Playing, 10);
    let b = track("B", "Y", MediaState::Paused, 0);
    assert_eq!(diff(&a, &b), Some(MediaEvent::MediaChanged(b.clone())));
}

#[test]
fn new_state_gives_state_changed() {
    let a = track("A", "X", MediaState::Playing, 10);
    let b = track("A", "X", MediaState::Paused, 10);
    assert_eq!(diff(&a, &b), Some(MediaEvent::StateChanged(MediaState::Paused)));
}

#[test]
fn playing_gives_progress() {
    let a = track("A", "X", MediaState::Playing, 10);
    let b = track("A", "X", MediaState::Playing, 1500);
    assert_eq!(diff(&a, &b), Some(MediaEvent::ProgressChanged(1500)));
}

#[test]
fn idle_and_unchanged_gives_nothing() {
    let a = track("A", "X", MediaState::Paused, 10);
    assert_eq!(diff(&a, &a.clone()), None);
    let s = track("A", "X", MediaState::Stopped, 0);
    assert_eq!(diff(&s, &s.clone()), None);
}

#[test]
fn media_change_wins_over_state_change() {
    let mut a = track("A", "X", MediaState::Paused, 0);
    a.uid = Some("1".to_string());
    let mut b = track("A", "X", MediaState::Playing, 0);
    b.uid = Some("2".to_string());
    assert_eq!(diff(&a, &b), Some(MediaEvent::MediaChanged(b.clone())));
}
