use spotifly::lifecycle::{InitFailure, InitStep, Lifecycle, LifecycleState};
use spotifly::settings::{Bitrate, Settings};

#[test]
fn lifecycle_starts_without_a_session() {
    let lifecycle = Lifecycle::new();
    assert_eq!(lifecycle.state(), LifecycleState::Uninitialized);
    assert!(!lifecycle.is_ready());
    assert!(!lifecycle.has_remote_control());
}

#[test]
fn lifecycle_walks_through_its_states() {
    let settings = Settings { bitrate: Bitrate::Low, gapless: false };
    let mut lifecycle = Lifecycle::new();
    assert_eq!(lifecycle.begin_initialize(settings), InitStep::Connect(settings));
    assert_eq!(lifecycle.state(), LifecycleState::Initializing);
    assert!(!lifecycle.is_ready());
    assert_eq!(lifecycle.complete_initialize(Ok(true)), Ok(()));
    assert_eq!(lifecycle.state(), LifecycleState::Ready);
    assert!(lifecycle.is_ready());
    assert!(lifecycle.has_remote_control());
    assert_eq!(lifecycle.begin_initialize(settings), InitStep::AlreadyReady);
    assert_eq!(lifecycle.state(), LifecycleState::Ready);
    assert!(lifecycle.has_remote_control());
    lifecycle.end_stream();
    assert_eq!(lifecycle.state(), LifecycleState::Terminated);
    assert!(!lifecycle.has_remote_control());
    assert!(!lifecycle.teardown());
    assert_eq!(lifecycle.state(), LifecycleState::Uninitialized);
}

#[test]
fn lifecycle_teardown_reports_a_running_reader() {
    let mut lifecycle = Lifecycle::new();
    assert!(!lifecycle.teardown());
    assert_eq!(lifecycle.begin_initialize(Settings::new()), InitStep::Connect(Settings::new()));
    assert_eq!(lifecycle.complete_initialize(Ok(false)), Ok(()));
    assert!(lifecycle.teardown());
    assert!(!lifecycle.teardown());
    assert_eq!(lifecycle.state(), LifecycleState::Uninitialized);
}

#[test]
fn lifecycle_begins_again_while_initializing() {
    let mut lifecycle = Lifecycle::new();
    assert_eq!(lifecycle.begin_initialize(Settings::new()), InitStep::Connect(Settings::new()));
    assert_eq!(lifecycle.begin_initialize(Settings::new()), InitStep::Connect(Settings::new()));
    assert_eq!(lifecycle.state(), LifecycleState::Initializing);
    assert_eq!(lifecycle.complete_initialize(Ok(false)), Ok(()));
    assert_eq!(lifecycle.complete_initialize(Ok(true)), Err(InitFailure::Superseded));
    assert_eq!(lifecycle.state(), LifecycleState::Ready);
    assert!(!lifecycle.has_remote_control());
}

#[test]
fn lifecycle_failure_reports_its_cause() {
    let mut lifecycle = Lifecycle::new();
    assert_eq!(lifecycle.begin_initialize(Settings::new()), InitStep::Connect(Settings::new()));
    assert_eq!(
        lifecycle.complete_initialize(Err(InitFailure::MixerUnavailable)),
        Err(InitFailure::MixerUnavailable)
    );
    assert_eq!(lifecycle.state(), LifecycleState::Uninitialized);
    lifecycle.end_stream();
    assert_eq!(lifecycle.state(), LifecycleState::Uninitialized);
}
