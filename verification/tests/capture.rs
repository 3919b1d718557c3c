use voicelink::capture::CaptureCommand;
use voicelink::capture::CaptureController;
use voicelink::capture::RecordingState;
use voicelink::pipeline::next_action;
use voicelink::pipeline::TickAction;
use voicelink::pipeline::TickEvent;

#[test]
fn new_controller_is_idle() {
    let controller = CaptureController::new();
    assert_eq!(controller.current_state(), RecordingState::Idle);
    assert!(!controller.is_recording());
}

#[test]
fn scenario_a_press_starts_recording_once() {
    let mut controller = CaptureController::new();
    let cmd = controller.on_trigger_pressed();
    assert_eq!(cmd, CaptureCommand::StartRecording);
    assert_eq!(controller.current_state(), RecordingState::Recording);
    assert!(controller.is_recording());
}

#[test]
fn release_returns_stop_and_goes_idle() {
    let mut controller = CaptureController::new();
    controller.on_trigger_pressed();
    let cmd = controller.on_trigger_released();
    assert_eq!(cmd, CaptureCommand::StopRecording);
    assert_eq!(controller.current_state(), RecordingState::Idle);
    assert!(!controller.is_recording());
}

#[test]
fn scenario_d_after_release_ticks_do_no_capture_calls() {
    let mut controller = CaptureController::new();
    controller.on_trigger_pressed();
    controller.on_trigger_released();
    // Even if the external service still holds buffered data, the next
    // ticks start from Idle and never reach a capture-service call.
    for _ in 0..3 {
        let action = next_action(TickEvent::Start {
            state: controller.current_state(),
        });
        assert_eq!(action, TickAction::Done);
    }
}
