use iced_component::spinner::{SpinnerMotionTrigger, SpinnerState};

#[test]
fn default_spinner_starts_on_first_registration() {
    let state = SpinnerState::new();

    assert!(state.is_spinning());
    assert_eq!(state.register(false), Some(SpinnerMotionTrigger::Start));
    assert_eq!(state.register(true), None);
    assert_eq!(SpinnerState::default(), state);
}

#[test]
fn stopped_spinner_plays_nothing_until_started() {
    let mut state = SpinnerState::stopped();

    assert_eq!(state.register(false), None);
    assert_eq!(state.start(true), Some(SpinnerMotionTrigger::Start));
    assert!(state.is_spinning());
    assert_eq!(state.start(true), None);
}

#[test]
fn stop_is_played_once_registered() {
    let mut state = SpinnerState::new();

    assert_eq!(state.stop(true), Some(SpinnerMotionTrigger::Stop));
    assert!(!state.is_spinning());
    assert_eq!(state.stop(false), None);
    assert_eq!(state.stop(true), Some(SpinnerMotionTrigger::Stop));
}

#[test]
fn sync_replays_only_registered_spinners() {
    let mut state = SpinnerState::new();

    assert_eq!(state.sync(false), None);
    assert_eq!(state.sync(true), Some(SpinnerMotionTrigger::Sync));
    assert_eq!(state.set_spinning(false, true), Some(SpinnerMotionTrigger::Stop));
    assert_eq!(state.sync(true), Some(SpinnerMotionTrigger::Stop));
    assert_eq!(state.set_spinning(true, true), Some(SpinnerMotionTrigger::Start));
    assert!(SpinnerState::stopped().with_spinning(true).is_spinning());
}
