use currently_playing::ws::{
    apply_event, frame_result, InboundFrame, MediaMessage, PushServer, ServerAction,
    ServerObservation, ServerState,
};
use currently_playing::{Error, MediaEvent, MediaMetadata, MediaState};

#[test]
fn progress_is_absolute() {
    let mut m = MediaMetadata::default();
    m.duration = 300000;
    m.title = "T".to_string();
    apply_event(&mut m, MediaEvent::ProgressChanged(1500));
    assert_eq!(m.elapsed, 1500);
    assert_eq!(m.duration, 300000);
    assert_eq!(m.title, "T");
}

#[test]
fn state_change_touches_only_state() {
    let mut m = MediaMetadata::default();
    m.title = "T".to_string();
    m.elapsed = 10;
    apply_event(&mut m, MediaEvent::StateChanged(MediaState::Playing));
    assert_eq!(m.state, MediaState::Playing);
    assert_eq!(m.elapsed, 10);
    assert_eq!(m.title, "T");
}

#[test]
fn media_change_replaces_snapshot() {
    let mut m = MediaMetadata::default();
    m.elapsed = 10;
    let mut n = MediaMetadata::default();
    n.title = "New".to_string();
    apply_event(&mut m, MediaEvent::MediaChanged(n.clone()));
    assert_eq!(m, n);
}

#[test]
fn frames_map_to_results() {
    let e = MediaEvent::ProgressChanged(3);
    assert_eq!(frame_result(InboundFrame::Event(e.clone())), Some(Ok(e)));
    assert_eq!(
        frame_result(InboundFrame::Malformed("bad".to_string())),
        Some(Err(Error::Protocol("bad".to_string())))
    );
    assert_eq!(frame_result(InboundFrame::NotText), Some(Err(Error::UnsupportedMessage)));
    assert_eq!(
        frame_result(InboundFrame::Failed("reset".to_string())),
        Some(Err(Error::Transport("reset".to_string())))
    );
    assert_eq!(frame_result(InboundFrame::Ended), None);
}

#[test]
fn malformed_frame_keeps_session() {
    let mut s = PushServer::new();
    assert!(matches!(s.step(false, ServerObservation::Started), ServerAction::Bind));
    assert!(matches!(s.step(false, ServerObservation::Bound), ServerAction::Accept));
    assert!(matches!(s.step(false, ServerObservation::Accepted), ServerAction::Read));
    let bad = frame_result(InboundFrame::Malformed("expected value".to_string()));
    assert!(matches!(bad, Some(Err(Error::Protocol(_)))));
    assert!(matches!(s.step(false, ServerObservation::Frame(bad)), ServerAction::Read));
    assert_eq!(s.state, ServerState::InSession);
    let good = frame_result(InboundFrame::Event(MediaEvent::ProgressChanged(1500)));
    match s.step(false, ServerObservation::Frame(good)) {
        ServerAction::Forward(e) => assert_eq!(e, MediaEvent::ProgressChanged(1500)),
        _ => panic!("expected a forward"),
    }
    assert!(matches!(s.step(false, ServerObservation::Forwarded), ServerAction::Read));
    assert!(s.is_running());
}

#[test]
fn client_leaving_resumes_accepting() {
    let mut s = PushServer::new();
    s.step(false, ServerObservation::Started);
    s.step(false, ServerObservation::Bound);
    s.step(false, ServerObservation::Accepted);
    let gone = frame_result(InboundFrame::Ended);
    assert!(matches!(s.step(false, ServerObservation::Frame(gone)), ServerAction::Accept));
    assert_eq!(s.state, ServerState::Listening);
    s.step(false, ServerObservation::Accepted);
    let broken = frame_result(InboundFrame::Failed("reset".to_string()));
    assert!(matches!(s.step(false, ServerObservation::Frame(broken)), ServerAction::Accept));
    assert!(!s.is_running());
}

#[test]
fn bind_failure_backs_off_then_cancels() {
    let mut s = PushServer::new();
    s.step(false, ServerObservation::Started);
    assert!(matches!(s.step(false, ServerObservation::BindFailed), ServerAction::Sleep(1000)));
    assert!(matches!(s.step(false, ServerObservation::Waited), ServerAction::Bind));
    assert!(matches!(s.step(true, ServerObservation::Bound), ServerAction::Exit));
    assert!(s.is_closed());
    assert!(matches!(s.step(false, ServerObservation::Accepted), ServerAction::Exit));
}

#[test]
fn progress_interval_message() {
    let m = MediaMessage::ProgressUpdateInterval(250);
    assert_eq!(m, MediaMessage::ProgressUpdateInterval(250));
}

#[test]
fn idle_waits_again() {
    let mut s = PushServer::new();
    s.step(false, ServerObservation::Started);
    s.step(false, ServerObservation::Bound);
    assert!(matches!(s.step(false, ServerObservation::Idle), ServerAction::Accept));
    assert_eq!(s.state, ServerState::Listening);
    s.step(false, ServerObservation::Accepted);
    assert!(matches!(s.step(false, ServerObservation::Idle), ServerAction::Read));
    assert_eq!(s.state, ServerState::InSession);
    assert!(matches!(s.step(true, ServerObservation::Idle), ServerAction::Exit));
}
