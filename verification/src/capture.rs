//! The life of an audio capture, as the decisions that its owner makes.
//!
//! Opening the device, waiting for the platform's callbacks and joining the
//! thread are the caller's work. The caller reports each thing that happened
//! as an event; `capture_step` answers with the state that follows and with
//! what to do.

use vstd::prelude::*;

verus! {

/// Why a capture could not begin. None of these is tried again.
#[derive(Clone, Copy, Debug, PartialEq, Eq, Structural)]
pub enum StartupError {
    /// The platform has no default input device.
    NoInputDevice,
    /// The device offers no input configuration that can be used.
    NoSupportedConfig,
    /// The device refused to open or to start the stream.
    StreamRefused,
}

/// Where a capture stands.
#[derive(Clone, Copy, Debug, PartialEq, Eq, Structural)]
pub enum CaptureState {
    /// Not started yet.
    Idle,
    /// The stream is open and deliveries arrive.
    Running,
    /// The stream was released on request.
    Stopped,
    /// The capture could not begin.
    Failed(StartupError),
}

/// What happened to a capture.
#[derive(Clone, Copy, Debug, PartialEq, Eq, Structural)]
pub enum CaptureEvent {
    /// The stream was opened and started.
    Started,
    /// Opening or starting the stream failed.
    StartFailed(StartupError),
    /// The device delivered samples.
    Delivery,
    /// The device reported an error on the running stream.
    StreamError,
    /// The game asked for the capture to end.
    StopRequested,
}

/// What the owner of a capture does next.
#[derive(Clone, Copy, Debug, PartialEq, Eq, Structural)]
pub enum CaptureAction {
    /// Nothing.
    Ignore,
    /// Hand the delivered samples to the framing buffer.
    Frame,
    /// Log the error; the stream goes on.
    LogAndContinue,
    /// Release the device and let the capture thread end, so that it can be
    /// joined.
    Release,
    /// Tell the caller that the capture cannot begin.
    ReportFatal(StartupError),
}

impl CaptureState {
    /// Whether nothing can happen to the capture any more.
    pub open spec fn spec_is_final(self) -> bool {
        self is Stopped || self is Failed
    }

    /// Whether nothing can happen to the capture any more.
    pub fn is_final(&self) -> (b: bool)
        ensures
            b == self.spec_is_final(),
    {
        match self {
            CaptureState::Stopped => true,
            CaptureState::Failed(_) => true,
            _ => false,
        }
    }
}

/// The state that follows `state` on `event`, and what to do.
///
/// A capture that is not started either starts or fails for good. A running
/// capture frames each delivery, outlives every stream error, and is
/// released when it is asked to stop. Whatever does not fit the state is
/// ignored and leaves it as it is.
pub open spec fn spec_capture_step(state: CaptureState, event: CaptureEvent) -> (
    CaptureState,
    CaptureAction,
) {
    match (state, event) {
        (CaptureState::Idle, CaptureEvent::Started) => (
            CaptureState::Running,
            CaptureAction::Ignore,
        ),
        (CaptureState::Idle, CaptureEvent::StartFailed(error)) => (
            CaptureState::Failed(error),
            CaptureAction::ReportFatal(error),
        ),
        (CaptureState::Running, CaptureEvent::Delivery) => (
            CaptureState::Running,
            CaptureAction::Frame,
        ),
        (CaptureState::Running, CaptureEvent::StreamError) => (
            CaptureState::Running,
            CaptureAction::LogAndContinue,
        ),
        (CaptureState::Running, CaptureEvent::StopRequested) => (
            CaptureState::Stopped,
            CaptureAction::Release,
        ),
        _ => (state, CaptureAction::Ignore),
    }
}

/// The state that follows `state` on `event`, and what to do.
pub fn capture_step(state: CaptureState, event: CaptureEvent) -> (next: (
    CaptureState,
    CaptureAction,
))
    ensures
        next == spec_capture_step(state, event),
{
    match state {
        CaptureState::Idle => match event {
            CaptureEvent::Started => (CaptureState::Running, CaptureAction::Ignore),
            CaptureEvent::StartFailed(error) => (
                CaptureState::Failed(error),
                CaptureAction::ReportFatal(error),
            ),
            _ => (state, CaptureAction::Ignore),
        },
        CaptureState::Running => match event {
            CaptureEvent::Delivery => (CaptureState::Running, CaptureAction::Frame),
            CaptureEvent::StreamError => (CaptureState::Running, CaptureAction::LogAndContinue),
            CaptureEvent::StopRequested => (CaptureState::Stopped, CaptureAction::Release),
            _ => (state, CaptureAction::Ignore),
        },
        _ => (state, CaptureAction::Ignore),
    }
}

/// The state after a run of events, taken in order.
pub open spec fn state_after(state: CaptureState, events: Seq<CaptureEvent>) -> CaptureState
    decreases events.len(),
{
    if events.len() == 0 {
        state
    } else {
        spec_capture_step(state_after(state, events.drop_last()), events.last()).0
    }
}

/// A capture that was stopped or that failed stays so, whatever happens,
/// and nothing is done for it any more.
pub proof fn lemma_final_states_absorb(state: CaptureState, events: Seq<CaptureEvent>)
    requires
        state.spec_is_final(),
    ensures
        state_after(state, events) == state,
        forall|event: CaptureEvent| #[trigger]
            spec_capture_step(state, event).1 == CaptureAction::Ignore,
    decreases events.len(),
{
    if events.len() > 0 {
        lemma_final_states_absorb(state, events.drop_last());
    }
}

/// Samples are framed only while the capture runs, and a stream error
/// never ends a running capture.
pub proof fn lemma_running_capture(state: CaptureState, event: CaptureEvent)
    ensures
        spec_capture_step(state, event).1 == CaptureAction::Frame ==> state
            == CaptureState::Running && event == CaptureEvent::Delivery,
        state == CaptureState::Running && event == CaptureEvent::StreamError
            ==> spec_capture_step(state, event).0 == CaptureState::Running,
        spec_capture_step(state, event).1 == CaptureAction::Release <==> state
            == CaptureState::Running && event == CaptureEvent::StopRequested,
        spec_capture_step(state, event).1 is ReportFatal ==> spec_capture_step(state, event).0
            is Failed,
{
}

} // verus!
