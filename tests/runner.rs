use apex_kube_manager::runner::{runner_step, RunnerAction, RunnerEvent, RunnerPhase};

#[test]
fn bind_then_accept_then_cancel() {
    let (p, a) = runner_step(RunnerPhase::Binding, RunnerEvent::Bound);
    assert_eq!((p, a), (RunnerPhase::Listening, RunnerAction::ReportActive));
    let (p, a) = runner_step(p, RunnerEvent::Accepted);
    assert_eq!((p, a), (RunnerPhase::Listening, RunnerAction::SpawnProxy));
    let (p, a) = runner_step(p, RunnerEvent::AcceptFailed);
    assert_eq!((p, a), (RunnerPhase::Listening, RunnerAction::Continue));
    let (p, a) = runner_step(p, RunnerEvent::Cancelled);
    assert_eq!((p, a), (RunnerPhase::Done, RunnerAction::ReportStopped));
}

#[test]
fn bind_failure_ends_in_error() {
    assert_eq!(
        runner_step(RunnerPhase::Binding, RunnerEvent::BindFailed),
        (RunnerPhase::Done, RunnerAction::ReportError)
    );
}

#[test]
fn missing_cluster_connection_ends_in_error() {
    assert_eq!(
        runner_step(RunnerPhase::Listening, RunnerEvent::ClusterUnavailable),
        (RunnerPhase::Done, RunnerAction::ReportError)
    );
}

#[test]
fn broken_listener_ends_in_error() {
    assert_eq!(
        runner_step(RunnerPhase::Listening, RunnerEvent::ListenerBroken),
        (RunnerPhase::Done, RunnerAction::ReportError)
    );
}

#[test]
fn done_runner_ignores_everything() {
    for e in [
        RunnerEvent::Bound,
        RunnerEvent::BindFailed,
        RunnerEvent::ClusterUnavailable,
        RunnerEvent::Cancelled,
        RunnerEvent::Accepted,
        RunnerEvent::AcceptFailed,
        RunnerEvent::ListenerBroken,
    ] {
        assert_eq!(runner_step(RunnerPhase::Done, e), (RunnerPhase::Done, RunnerAction::Continue));
    }
}
