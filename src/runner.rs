use vstd::prelude::*;
use crate::forward::{PortForwardStatus, legal_transition};

verus! {

/// Where the runner of one session stands.
#[derive(Clone, Copy, Debug, PartialEq, Eq, Structural)]
pub enum RunnerPhase {
    /// Binding the local listener.
    Binding,
    /// Accepting connections until told to stop.
    Listening,
    /// Exited; reports nothing more.
    Done,
}

/// What the runner observed.
#[derive(Clone, Copy, Debug, PartialEq, Eq, Structural)]
pub enum RunnerEvent {
    /// The listener on `127.0.0.1:local_port` is bound.
    Bound,
    /// The listener could not be bound.
    BindFailed,
    /// No connection to the cluster could be set up for the tunnels.
    ClusterUnavailable,
    /// The stop signal arrived, or its sender is gone.
    Cancelled,
    /// A local client connected.
    Accepted,
    /// Accepting a client failed; the listener is still there.
    AcceptFailed,
    /// Accepting failed in a way the listener does not recover from.
    ListenerBroken,
}

/// What the runner does next.
#[derive(Clone, Copy, Debug, PartialEq, Eq, Structural)]
pub enum RunnerAction {
    /// Report the session `Active` and keep accepting.
    ReportActive,
    /// Report the session `Error` and exit.
    ReportError,
    /// Report the session `Stopped` and exit.
    ReportStopped,
    /// Count the connection and hand it to its own proxy task, then go on
    /// accepting at once.
    SpawnProxy,
    /// Go on waiting.
    Continue,
}

pub open spec fn runner_next(phase: RunnerPhase, event: RunnerEvent) -> (RunnerPhase, RunnerAction) {
    match (phase, event) {
        (RunnerPhase::Binding, RunnerEvent::Bound) => (RunnerPhase::Listening, RunnerAction::ReportActive),
        (RunnerPhase::Binding, RunnerEvent::BindFailed) => (RunnerPhase::Done, RunnerAction::ReportError),
        (RunnerPhase::Listening, RunnerEvent::ClusterUnavailable) => (RunnerPhase::Done, RunnerAction::ReportError),
        (RunnerPhase::Listening, RunnerEvent::Cancelled) => (RunnerPhase::Done, RunnerAction::ReportStopped),
        (RunnerPhase::Listening, RunnerEvent::ListenerBroken) => (RunnerPhase::Done, RunnerAction::ReportError),
        (RunnerPhase::Listening, RunnerEvent::Accepted) => (RunnerPhase::Listening, RunnerAction::SpawnProxy),
        _ => (phase, RunnerAction::Continue),
    }
}

/// The status a phase stands for in the registry.
pub open spec fn phase_status(phase: RunnerPhase, failed: bool) -> PortForwardStatus {
    match phase {
        RunnerPhase::Binding => PortForwardStatus::Starting,
        RunnerPhase::Listening => PortForwardStatus::Active,
        RunnerPhase::Done => if failed {
            PortForwardStatus::Error
        } else {
            PortForwardStatus::Stopped
        },
    }
}

/// One decision of a session runner: bind, then accept until cancelled.
/// A bind failure, a missing cluster connection or a broken listener ends it
/// in error; an accept that fails transiently is passed over.
pub fn runner_step(phase: RunnerPhase, event: RunnerEvent) -> (r: (RunnerPhase, RunnerAction))
    ensures
        r == runner_next(phase, event),
        phase is Done ==> r == (phase, RunnerAction::Continue),
        r.0 != phase ==> legal_transition(
            phase_status(phase, false),
            phase_status(r.0, r.1 is ReportError),
        ),
{
    match (phase, event) {
        (RunnerPhase::Binding, RunnerEvent::Bound) => (RunnerPhase::Listening, RunnerAction::ReportActive),
        (RunnerPhase::Binding, RunnerEvent::BindFailed) => (RunnerPhase::Done, RunnerAction::ReportError),
        (RunnerPhase::Listening, RunnerEvent::ClusterUnavailable) => (RunnerPhase::Done, RunnerAction::ReportError),
        (RunnerPhase::Listening, RunnerEvent::Cancelled) => (RunnerPhase::Done, RunnerAction::ReportStopped),
        (RunnerPhase::Listening, RunnerEvent::ListenerBroken) => (RunnerPhase::Done, RunnerAction::ReportError),
        (RunnerPhase::Listening, RunnerEvent::Accepted) => (RunnerPhase::Listening, RunnerAction::SpawnProxy),
        _ => (phase, RunnerAction::Continue),
    }
}

} // verus!
