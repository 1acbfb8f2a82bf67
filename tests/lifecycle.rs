use argus::config::stage_runtime_policy;
use argus::retry::{Failure, Policy};
use argus::runtime::{Action, Event, Exit, Phase, RuntimePolicy, StageRuntime};
use argus::supervisor::Supervisor;

#[test]
fn sink_connects_on_third_attempt() {
    let mut rt = StageRuntime::new(stage_runtime_policy());
    let mut delays = vec![];
    for _ in 0..2 {
        match rt.step(Event::BootstrapFailed(Failure::Retry)) {
            Action::Bootstrap(d) => delays.push(d),
            other => panic!("unexpected {:?}", other),
        }
    }
    assert_eq!(rt.step(Event::Bootstrapped), Action::Work(0));
    assert_eq!(rt.phase, Phase::Working);
    assert_eq!(delays, vec![1000, 2000]);
    assert_eq!(rt.bootstrap.failures, 0);
}

#[test]
fn work_restart_goes_back_to_bootstrap() {
    let mut rt = StageRuntime::new(stage_runtime_policy());
    rt.step(Event::Bootstrapped);
    assert_eq!(rt.step(Event::WorkFailed(Failure::Retry)), Action::Work(1000));
    assert_eq!(rt.step(Event::WorkFailed(Failure::Restart)), Action::Bootstrap(2000));
    assert_eq!(rt.phase, Phase::Bootstrapping);
}

#[test]
fn input_closed_tears_down_cleanly() {
    let mut rt = StageRuntime::new(stage_runtime_policy());
    rt.step(Event::Bootstrapped);
    assert_eq!(rt.step(Event::WorkDone), Action::Work(0));
    assert_eq!(rt.step(Event::InputClosed), Action::Teardown(0));
    assert_eq!(rt.step(Event::TornDown), Action::Stop);
    assert_eq!(rt.exit(), Some(Exit::Finished));
    assert_eq!(rt.step(Event::WorkDone), Action::Idle);
}

#[test]
fn shutdown_request_tears_down() {
    let mut rt = StageRuntime::new(stage_runtime_policy());
    assert_eq!(rt.step(Event::ShutdownRequested), Action::Teardown(0));
    assert_eq!(rt.step(Event::TeardownFailed(Failure::Retry)), Action::Teardown(1000));
    assert_eq!(rt.step(Event::TornDown), Action::Stop);
}

#[test]
fn fatal_work_failure_aborts_pipeline() {
    let mut rt = StageRuntime::new(stage_runtime_policy());
    rt.step(Event::Bootstrapped);
    assert_eq!(rt.step(Event::WorkFailed(Failure::Fatal)), Action::Abort);
    assert_eq!(rt.exit(), Some(Exit::Failed));
}

fn short_policy(dismissible: bool) -> RuntimePolicy {
    let p = Policy { max_retries: 2, backoff_unit: 10, backoff_factor: 2, max_backoff: 100, dismissible };
    RuntimePolicy { bootstrap_retry: p, work_retry: p, teardown_retry: p }
}

#[test]
fn dismissible_stage_stops_alone() {
    let mut sup = Supervisor::new(2);
    let mut rt = StageRuntime::new(short_policy(true));
    assert_eq!(rt.step(Event::BootstrapFailed(Failure::Restart)), Action::Bootstrap(10));
    assert_eq!(rt.step(Event::BootstrapFailed(Failure::Restart)), Action::Bootstrap(20));
    assert_eq!(rt.step(Event::BootstrapFailed(Failure::Restart)), Action::Stop);
    assert!(!sup.record_exit(0, rt.exit().unwrap()));
    assert!(!sup.shutdown_requested());
    assert!(!sup.all_exited());
    assert!(!sup.failed());
}

#[test]
fn non_dismissible_stage_stops_pipeline() {
    let mut sup = Supervisor::new(2);
    let mut rt = StageRuntime::new(short_policy(false));
    rt.step(Event::Bootstrapped);
    rt.step(Event::WorkFailed(Failure::Retry));
    rt.step(Event::WorkFailed(Failure::Retry));
    assert_eq!(rt.step(Event::WorkFailed(Failure::Retry)), Action::Abort);
    assert!(sup.record_exit(1, rt.exit().unwrap()));
    assert!(sup.shutdown_requested());
    assert!(sup.failed());
    assert!(sup.record_exit(0, Exit::Finished));
    assert!(sup.all_exited());
    assert_eq!(sup.stages(), 2);
}
