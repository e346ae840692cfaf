use neolink::stream::{frame_timeout_action, FrameTimeoutAction, MdState, MotionPause};

#[test]
fn new_client_streams_during_startup() {
    let g = MotionPause::new(MdState::Stop);
    assert!(g.is_live());
    assert!(!g.motion);
    let g = MotionPause::new(MdState::Start);
    assert!(g.motion);
    let g = MotionPause::new(MdState::Unknown);
    assert!(!g.motion);
}

#[test]
fn pauses_without_motion_after_startup() {
    let mut g = MotionPause::new(MdState::Unknown);
    g.startup_elapsed();
    assert!(!g.is_live());
    g.motion_changed(MdState::Start);
    assert!(g.is_live());
    g.motion_changed(MdState::Unknown);
    assert!(g.is_live());
    g.motion_changed(MdState::Stop);
    assert!(!g.is_live());
}

#[test]
fn alert_holds_stream_open() {
    let mut g = MotionPause::new(MdState::Stop);
    g.startup_elapsed();
    assert!(!g.push_notification("Battery low"));
    assert!(!g.is_live());
    assert!(g.push_notification("Motion Alert from Camera01"));
    assert!(g.is_live());
    assert!(g.push_notification("You have a Motion Alert from Front Door"));
    assert_eq!(g.alerts, 2);
    g.alert_expired();
    assert!(g.is_live());
    g.alert_expired();
    assert!(!g.is_live());
}

#[test]
fn alert_text_is_case_sensitive() {
    let mut g = MotionPause::new(MdState::Stop);
    assert!(!g.push_notification("motion alert from Camera01"));
    assert!(!g.push_notification("Motion Alert"));
    assert_eq!(g.alerts, 0);
}

#[test]
fn watchdog_actions() {
    assert_eq!(frame_timeout_action(true), FrameTimeoutAction::Finish);
    assert_eq!(frame_timeout_action(false), FrameTimeoutAction::Reconnect);
}

use neolink::stream::{relay_step, PauseEvent, RelayAction, RelayEvent, RelayState};

#[test]
fn history_of_events() {
    let mut g = MotionPause::new(MdState::Stop);
    let events = vec![
        PauseEvent::StartupElapsed,
        PauseEvent::Motion(MdState::Start),
        PauseEvent::Motion(MdState::Unknown),
        PauseEvent::Notification("Motion Alert from Yard".to_string()),
        PauseEvent::Motion(MdState::Stop),
    ];
    for e in &events {
        g.apply(e);
    }
    assert!(!g.startup);
    assert!(!g.motion);
    assert_eq!(g.alerts, 1);
    assert!(g.is_live());
    g.apply(&PauseEvent::AlertExpired);
    assert!(!g.is_live());
}

#[test]
fn relay_waits_streams_and_pauses() {
    assert_eq!(
        relay_step(RelayState::Waiting, RelayEvent::UsersAcquired),
        (RelayState::Streaming, RelayAction::StartStream)
    );
    assert_eq!(
        relay_step(RelayState::Streaming, RelayEvent::UsersDropped),
        (RelayState::Waiting, RelayAction::PauseStream)
    );
    assert_eq!(
        relay_step(RelayState::Streaming, RelayEvent::StreamEnded),
        (RelayState::Waiting, RelayAction::PauseStream)
    );
    assert_eq!(
        relay_step(RelayState::Waiting, RelayEvent::StreamFailed),
        (RelayState::Waiting, RelayAction::Nothing)
    );
}

#[test]
fn relay_ends_with_consumer() {
    assert_eq!(
        relay_step(RelayState::Waiting, RelayEvent::ConsumerClosed),
        (RelayState::Finished, RelayAction::Finish)
    );
    assert_eq!(
        relay_step(RelayState::Streaming, RelayEvent::ConsumerClosed),
        (RelayState::Finished, RelayAction::Finish)
    );
    assert_eq!(
        relay_step(RelayState::Finished, RelayEvent::UsersAcquired),
        (RelayState::Finished, RelayAction::Nothing)
    );
}

#[test]
fn relay_fails_on_errors() {
    for e in [RelayEvent::StreamFailed, RelayEvent::DropWatchFailed, RelayEvent::WatcherEnded] {
        assert_eq!(relay_step(RelayState::Streaming, e), (RelayState::Failed, RelayAction::Fail));
    }
    assert_eq!(
        relay_step(RelayState::Waiting, RelayEvent::WaitFailed),
        (RelayState::Failed, RelayAction::Fail)
    );
    assert_eq!(
        relay_step(RelayState::Failed, RelayEvent::ConsumerClosed),
        (RelayState::Failed, RelayAction::Nothing)
    );
}

use neolink::stream::PausedRelay;

#[test]
fn relay_follows_pause_state() {
    let (mut s, action) = PausedRelay::new(MdState::Stop);
    assert_eq!(action, RelayAction::StartStream);
    assert!(s.is_streaming());
    assert_eq!(s.on_pause_event(&PauseEvent::StartupElapsed), RelayAction::PauseStream);
    assert!(!s.is_streaming());
    assert_eq!(s.on_pause_event(&PauseEvent::Motion(MdState::Unknown)), RelayAction::Nothing);
    assert_eq!(s.on_pause_event(&PauseEvent::Motion(MdState::Start)), RelayAction::StartStream);
    assert!(s.is_streaming());
    assert_eq!(
        s.on_pause_event(&PauseEvent::Notification("Motion Alert from Gate".to_string())),
        RelayAction::Nothing
    );
    assert_eq!(s.on_pause_event(&PauseEvent::Motion(MdState::Stop)), RelayAction::Nothing);
    assert!(s.is_streaming());
    assert_eq!(s.on_pause_event(&PauseEvent::AlertExpired), RelayAction::PauseStream);
    assert!(!s.is_streaming());
}

#[test]
fn ended_stream_restarts_while_live() {
    let (mut s, _) = PausedRelay::new(MdState::Start);
    assert_eq!(
        s.on_relay_event(RelayEvent::StreamEnded),
        (RelayAction::PauseStream, RelayAction::StartStream)
    );
    assert!(s.is_streaming());
    s.on_pause_event(&PauseEvent::StartupElapsed);
    s.on_pause_event(&PauseEvent::Motion(MdState::Stop));
    assert!(!s.is_streaming());
    assert_eq!(
        s.on_relay_event(RelayEvent::ConsumerClosed),
        (RelayAction::Finish, RelayAction::Nothing)
    );
    assert_eq!(s.relay, RelayState::Finished);
    assert_eq!(s.on_pause_event(&PauseEvent::Motion(MdState::Start)), RelayAction::Nothing);
    assert!(!s.is_streaming());
}

#[test]
fn relay_failure_is_final() {
    let (mut s, _) = PausedRelay::new(MdState::Stop);
    assert_eq!(
        s.on_relay_event(RelayEvent::WatcherEnded),
        (RelayAction::Fail, RelayAction::Nothing)
    );
    assert_eq!(s.relay, RelayState::Failed);
}
