use vstd::prelude::*;

verus! {

/// Where the source of input events stands.
#[derive(Debug, Clone, Copy, PartialEq, Eq, Structural)]
pub enum DetectionState {
    /// Never started.
    NotStarted,
    /// The platform's hook is in, or being put in: events are taken.
    Running,
    /// The hook could not be put in. No event will come.
    Failed,
    /// Stopped, for good.
    Stopped,
}

/// What the caller is to do to start the source.
#[derive(Debug, Clone, Copy, PartialEq, Eq, Structural)]
pub enum StartStep {
    /// Put the platform's hook in.
    Install,
    /// Nothing: the source was started before.
    Nothing,
}

impl DetectionState {
    /// The state after a start, with what the caller is to do: a source that
    /// was never started is started, and any other is left as it is.
    pub open spec fn started(self) -> (DetectionState, StartStep) {
        match self {
            DetectionState::NotStarted => (DetectionState::Running, StartStep::Install),
            _ => (self, StartStep::Nothing),
        }
    }

    /// The state after the hook could not be put in.
    pub open spec fn failed(self) -> DetectionState {
        match self {
            DetectionState::Running => DetectionState::Failed,
            _ => self,
        }
    }

    /// Events are taken from the source.
    pub fn takes_events(&self) -> (yes: bool)
        ensures
            yes == (*self == DetectionState::Running),
    {
        match self {
            DetectionState::Running => true,
            _ => false,
        }
    }

    /// Takes note that the platform's hook could not be put in: the failure
    /// is reported by the caller this once, and no event is taken afterwards.
    pub fn install_failed(&mut self) -> (report: bool)
        ensures
            *final(self) == old(self).failed(),
            report == (*old(self) == DetectionState::Running),
    {
        match self {
            DetectionState::Running => {
                *self = DetectionState::Failed;
                true
            },
            _ => false,
        }
    }
}

/// Starts the source of input events. Starting it again changes nothing, and
/// a source that was stopped does not start again.
pub fn start_drag_detection(state: &mut DetectionState) -> (step: StartStep)
    ensures
        (*final(state), step) == old(state).started(),
{
    match state {
        DetectionState::NotStarted => {
            *state = DetectionState::Running;
            StartStep::Install
        },
        _ => StartStep::Nothing,
    }
}

/// Stops the source of input events, for good.
pub fn stop_drag_detection(state: &mut DetectionState)
    ensures
        *final(state) == DetectionState::Stopped,
{
    *state = DetectionState::Stopped;
}

/// A source is started at most once: after any start, another start asks for
/// nothing and changes nothing.
pub proof fn second_start_does_nothing(state: DetectionState)
    ensures
        state.started().0.started() == (state.started().0, StartStep::Nothing),
{
}

/// A stopped source stays stopped.
pub proof fn stopped_stays_stopped()
    ensures
        DetectionState::Stopped.started() == (DetectionState::Stopped, StartStep::Nothing),
        DetectionState::Stopped.failed() == DetectionState::Stopped,
{
}

} // verus!
