//! Recording on/off state and the controller that owns it.

use vstd::prelude::*;

verus! {

/// Whether voice capture is currently active. Created as `Idle` at startup
/// and toggled only by trigger edges.
#[derive(Clone, Copy, Debug, PartialEq, Eq, Structural)]
pub enum RecordingState {
    Idle,
    Recording,
}

/// The non-fatal result codes the capture service can report. Every one of
/// them is an expected, transient condition: the tick that sees one simply
/// performs no further work.
#[derive(Clone, Copy, Debug, PartialEq, Eq, Structural)]
pub enum CaptureError {
    NotInitialized,
    NotRecording,
    NoData,
    BufferTooSmall,
    DataCorrupted,
    Restricted,
}

/// An imperative call the host must make against the capture service on
/// behalf of the controller. The host performs it fire-and-forget: the
/// service reports no failure for start/stop, and none is handled.
#[derive(Clone, Copy, Debug, PartialEq, Eq, Structural)]
pub enum CaptureCommand {
    StartRecording,
    StopRecording,
}

/// Owns the recording state and bridges edge-triggered input events to the
/// capture service's start/stop calls. Purely reactive: no polling, no
/// background work.
pub struct CaptureController {
    recording: RecordingState,
}

impl CaptureController {
    /// The recording state the controller currently holds.
    pub closed spec fn state(self) -> RecordingState {
        self.recording
    }

    /// A fresh controller starts idle.
    pub fn new() -> (c: CaptureController)
        ensures
            c.state() is Idle,
    {
        CaptureController { recording: RecordingState::Idle }
    }

    /// The trigger went down: the state becomes `Recording` and the host is
    /// told to start the capture service.
    pub fn on_trigger_pressed(&mut self) -> (cmd: CaptureCommand)
        ensures
            final(self).state() is Recording,
            cmd is StartRecording,
    {
        self.recording = RecordingState::Recording;
        CaptureCommand::StartRecording
    }

    /// The trigger came up: the state becomes `Idle` and the host is told to
    /// stop the capture service.
    pub fn on_trigger_released(&mut self) -> (cmd: CaptureCommand)
        ensures
            final(self).state() is Idle,
            cmd is StopRecording,
    {
        self.recording = RecordingState::Idle;
        CaptureCommand::StopRecording
    }

    /// The state a tick should be gated on.
    pub fn current_state(&self) -> (s: RecordingState)
        ensures
            s == self.state(),
    {
        self.recording
    }

    /// Whether capture is active right now.
    pub fn is_recording(&self) -> (r: bool)
        ensures
            r == (self.state() is Recording),
    {
        match self.recording {
            RecordingState::Recording => true,
            RecordingState::Idle => false,
        }
    }
}

} // verus!
