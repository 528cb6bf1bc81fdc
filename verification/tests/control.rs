use scap::control::{
    setup_outcome, CaptureControl, CapturerState, LoopAction, LoopPhase, SetupError, StreamState,
};

const SLEEP: LoopAction = LoopAction::Sleep { millis: 10 };
const ITERATE: LoopAction = LoopAction::Iterate { millis: 100 };

#[test]
fn the_loop_waits_runs_and_ends() {
    let mut control = CaptureControl::new();
    let mut phase = LoopPhase::Waiting;
    assert_eq!(control.next_action(phase), (LoopPhase::Waiting, SLEEP));
    control.start_capture();
    let (next, action) = control.next_action(phase);
    assert_eq!((next, action), (LoopPhase::Running, ITERATE));
    phase = next;
    assert_eq!(control.next_action(phase), (LoopPhase::Running, ITERATE));
    control.stop_capture();
    assert_eq!(control.next_action(phase), (LoopPhase::Ended, LoopAction::Exit));
    control.stop_finished();
    assert_eq!(control, CaptureControl::new());
}

#[test]
fn a_stop_before_the_start_ends_the_loop() {
    let mut control = CaptureControl::new();
    control.stop_capture();
    assert_eq!(control.state, CapturerState::Stopped);
    assert_eq!(
        control.next_action(LoopPhase::Waiting),
        (LoopPhase::Ended, LoopAction::Exit)
    );
}

#[test]
fn a_running_loop_never_waits_again() {
    let control = CaptureControl::new();
    assert_eq!(
        control.next_action(LoopPhase::Running),
        (LoopPhase::Ended, LoopAction::Exit)
    );
    let mut started = CaptureControl::new();
    started.start_capture();
    assert_eq!(
        started.next_action(LoopPhase::Ended),
        (LoopPhase::Ended, LoopAction::Exit)
    );
}

#[test]
fn a_stream_error_is_reported_and_ends_the_loop() {
    let mut control = CaptureControl::new();
    control.start_capture();
    assert_eq!(control.state_changed(StreamState::Connecting), None);
    assert_eq!(control.state_changed(StreamState::Unconnected), None);
    assert_eq!(control.state_changed(StreamState::Paused), None);
    assert!(!control.stream_error);
    assert_eq!(
        control.state_changed(StreamState::Error("gone".to_string())),
        Some("gone".to_string())
    );
    assert_eq!(control.state_changed(StreamState::Streaming), None);
    assert!(control.stream_error);
    assert_eq!(
        control.next_action(LoopPhase::Running),
        (LoopPhase::Ended, LoopAction::Exit)
    );
    control.start_capture();
    assert!(control.stream_error);
    control.stop_finished();
    assert!(!control.stream_error);
}

#[test]
fn only_a_true_answer_is_a_setup() {
    assert_eq!(setup_outcome(Some(true)), Ok(()));
    assert_eq!(setup_outcome(Some(false)), Err(SetupError::Failed));
    assert_eq!(setup_outcome(None), Err(SetupError::NoAnswer));
    assert_eq!(SetupError::NoAnswer.message(), "Failed to receive");
    assert_eq!(SetupError::Failed.message(), "Failed to setup capturer");
}
