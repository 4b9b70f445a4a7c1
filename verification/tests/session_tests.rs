use framelet::error::RecordingError;
use framelet::recorder::RecordingConfig;
use framelet::session::start_recording;
use framelet::session::stop_recording;
use framelet::session::CaptureManager;
use framelet::session::RecordingSession;
use framelet::session::SessionState;
use framelet::types::Region;

#[test]
fn a_new_slot_is_idle() {
    let manager = CaptureManager::new();
    assert_eq!(manager.state(), SessionState::Idle);
    assert!(!manager.stop_requested());
}

#[test]
fn start_enters_a_session() {
    let mut manager = CaptureManager::new();
    assert_eq!(manager.start_capture_session(), Ok("Recording started".to_string()));
    assert_eq!(manager.state(), SessionState::Recording);
    assert!(!manager.stop_requested());
}

#[test]
fn a_second_start_fails_and_leaves_the_session_alone() {
    let mut manager = CaptureManager::new();
    assert!(manager.start_capture_session().is_ok());
    let before = manager.clone();
    for _ in 0..5 {
        assert_eq!(manager.start_capture_session(), Err(RecordingError::AlreadyRecording));
        assert_eq!(manager, before);
        assert_eq!(manager.state(), SessionState::Recording);
    }
}

#[test]
fn start_recording_twice_keeps_the_first_session() {
    let mut manager = CaptureManager::new();
    let first = start_recording(&mut manager, Ok((1920, 1080)), "first.mp4".to_string(), None);
    assert!(first.is_ok());
    let before = manager.clone();
    let second = start_recording(&mut manager, Ok((800, 600)), "second.mp4".to_string(), None);
    assert_eq!(second, Err(RecordingError::AlreadyRecording));
    assert_eq!(manager, before);
    let third = start_recording(&mut manager, Err("stale handle".to_string()), "third.mp4".to_string(), None);
    assert_eq!(third, Err(RecordingError::AlreadyRecording));
    assert_eq!(manager, before);
}

#[test]
fn start_is_rejected_while_stopping() {
    let mut manager = CaptureManager::new();
    assert!(manager.start_capture_session().is_ok());
    assert_eq!(stop_recording(&mut manager), Ok(true));
    assert_eq!(manager.state(), SessionState::Stopping);
    let before = manager.clone();
    assert_eq!(manager.start_capture_session(), Err(RecordingError::AlreadyRecording));
    assert_eq!(
        start_recording(&mut manager, Ok((10, 10)), "x.mp4".to_string(), None),
        Err(RecordingError::AlreadyRecording)
    );
    assert_eq!(manager, before);
}

#[test]
fn start_recording_builds_the_configuration() {
    let mut manager = CaptureManager::new();
    let region = Region { x: 100, y: 50, width: 400, height: 300 };
    let config = start_recording(&mut manager, Ok((1920, 1080)), "out.mp4".to_string(), Some(region));
    assert_eq!(
        config,
        Ok(RecordingConfig { width: 1920, height: 1080, output_path: "out.mp4".to_string(), region: Some(region) })
    );
    assert_eq!(manager.state(), SessionState::Recording);
}

#[test]
fn start_recording_with_an_unresolved_source() {
    let mut manager = CaptureManager::new();
    let res = start_recording(&mut manager, Err("window was closed".to_string()), "out.mp4".to_string(), None);
    assert_eq!(res, Err(RecordingError::SourceResolutionFailed("window was closed".to_string())));
    assert_eq!(manager.state(), SessionState::Idle);
    assert_eq!(manager, CaptureManager::new());
    assert!(start_recording(&mut manager, Ok((640, 480)), "out.mp4".to_string(), None).is_ok());
}

#[test]
fn stop_without_a_session_fails() {
    let mut manager = CaptureManager::new();
    for _ in 0..3 {
        assert_eq!(stop_recording(&mut manager), Err(RecordingError::NotRecording));
        assert_eq!(manager, CaptureManager::new());
        assert_eq!(manager.stop_capture_session(true), Err(RecordingError::NotRecording));
        assert_eq!(manager.stop_capture_session(false), Err(RecordingError::NotRecording));
        assert_eq!(manager.state(), SessionState::Idle);
    }
    assert!(manager.start_capture_session().is_ok());
}

#[test]
fn stop_sets_the_signal_and_keeps_the_slot_until_joined() {
    let mut manager = CaptureManager::new();
    assert!(manager.start_capture_session().is_ok());
    assert_eq!(stop_recording(&mut manager), Ok(true));
    assert!(manager.stop_requested());
    assert_eq!(manager.state(), SessionState::Stopping);
    assert_eq!(manager.stop_capture_session(true), Ok("Recording stopped".to_string()));
    assert_eq!(manager.state(), SessionState::Idle);
    assert!(!manager.stop_requested());
}

#[test]
fn a_second_stop_request_has_nothing_to_join() {
    let mut manager = CaptureManager::new();
    assert!(manager.start_capture_session().is_ok());
    assert_eq!(stop_recording(&mut manager), Ok(true));
    assert_eq!(stop_recording(&mut manager), Ok(false));
    assert_eq!(manager.state(), SessionState::Stopping);
}

#[test]
fn a_failed_join_still_clears_the_slot() {
    let mut manager = CaptureManager::new();
    assert!(manager.start_capture_session().is_ok());
    assert_eq!(stop_recording(&mut manager), Ok(true));
    assert_eq!(manager.stop_capture_session(false), Err(RecordingError::JoinFailed));
    assert_eq!(manager.state(), SessionState::Idle);
    assert_eq!(manager.start_capture_session(), Ok("Recording started".to_string()));
}

#[test]
fn sessions_can_follow_each_other() {
    let mut manager = CaptureManager::new();
    for round in 0..4 {
        let path = format!("take-{}.mp4", round);
        assert!(start_recording(&mut manager, Ok((1280, 720)), path, None).is_ok());
        assert_eq!(stop_recording(&mut manager), Ok(true));
        assert!(manager.stop_capture_session(true).is_ok());
        assert_eq!(manager.state(), SessionState::Idle);
    }
}

#[test]
fn session_stop_asks_for_one_join() {
    let mut session = RecordingSession::new();
    assert!(session.is_active());
    assert!(session.stop());
    assert!(!session.is_active());
    assert!(!session.stop());
    assert!(!session.is_active());
}

#[test]
fn recording_error_messages() {
    assert_eq!(RecordingError::AlreadyRecording.message(), "Recording already in progress");
    assert_eq!(RecordingError::NotRecording.message(), "No recording in progress");
    assert_eq!(RecordingError::JoinFailed.message(), "Failed to join recording thread");
    assert_eq!(
        RecordingError::SourceResolutionFailed("stale handle".to_string()).message(),
        "Failed to create capture item: stale handle"
    );
}
