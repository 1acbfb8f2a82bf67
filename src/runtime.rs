use vstd::prelude::*;

use crate::retry::{spec_decide, Attempts, Decision, Failure, Policy};

verus! {

/// Retry policies of the three phases of a stage.
#[derive(Debug, Clone, Copy, PartialEq, Eq, Structural)]
pub struct RuntimePolicy {
    pub bootstrap_retry: Policy,
    pub work_retry: Policy,
    pub teardown_retry: Policy,
}

/// How a stage ended.
#[derive(Debug, Clone, Copy, PartialEq, Eq, Structural)]
pub enum Exit {
    /// Torn down after its input closed or a shutdown was asked for.
    Finished,
    /// Stopped quietly: a dismissible stage gave up.
    Dismissed,
    /// Stopped on a failure that ends the whole pipeline.
    Failed,
}

/// Where a stage is in its lifecycle.
#[derive(Debug, Clone, Copy, PartialEq, Eq, Structural)]
pub enum Phase {
    Bootstrapping,
    Working,
    TearingDown,
    Stopped(Exit),
}

/// What happened since the last action.
#[derive(Debug, Clone, Copy, PartialEq, Eq, Structural)]
pub enum Event {
    Bootstrapped,
    BootstrapFailed(Failure),
    WorkDone,
    WorkFailed(Failure),
    InputClosed,
    ShutdownRequested,
    TornDown,
    TeardownFailed(Failure),
}

/// What the stage does next. A delay, in milliseconds, comes first.
#[derive(Debug, Clone, Copy, PartialEq, Eq, Structural)]
pub enum Action {
    /// Acquire the external connection and build a fresh worker.
    Bootstrap(u64),
    /// Schedule and execute a unit of work; after a retryable failure, the
    /// same unit again.
    Work(u64),
    /// Release the worker.
    Teardown(u64),
    /// The stage is over; the pipeline goes on.
    Stop,
    /// The stage is over and the pipeline must shut down.
    Abort,
    /// The event does not apply in this phase: nothing to do.
    Idle,
}

/// Mathematical value of a stage runtime: its phase and the consecutive
/// failures of each phase.
pub struct RuntimeModel {
    pub phase: Phase,
    pub bootstrap_failures: nat,
    pub work_failures: nat,
    pub teardown_failures: nat,
}

/// Failure count after one more failure, saturating as `Attempts` does.
pub open spec fn bump(n: nat) -> nat {
    if n < u32::MAX {
        n + 1
    } else {
        n
    }
}

/// The phase and action that a retry decision leads to from `phase`, where
/// a restart goes back to bootstrap.
pub open spec fn follow(phase: Phase, d: Decision) -> (Phase, Action) {
    match d {
        Decision::RetryAfter(x) => (
            phase,
            match phase {
                Phase::Bootstrapping => Action::Bootstrap(x),
                Phase::Working => Action::Work(x),
                _ => Action::Teardown(x),
            },
        ),
        Decision::RestartAfter(x) => match phase {
            Phase::TearingDown => (phase, Action::Teardown(x)),
            _ => (Phase::Bootstrapping, Action::Bootstrap(x)),
        },
        Decision::Dismiss => (Phase::Stopped(Exit::Dismissed), Action::Stop),
        Decision::Abort => (Phase::Stopped(Exit::Failed), Action::Abort),
    }
}

/// One step of the stage lifecycle: bootstrap, then work until the input
/// closes or a shutdown is asked for, then teardown. Each failure goes
/// through the retry policy of its phase; a success clears that phase's
/// count.
pub open spec fn spec_step(p: RuntimePolicy, m: RuntimeModel, e: Event) -> (RuntimeModel, Action) {
    match (m.phase, e) {
        (Phase::Bootstrapping, Event::Bootstrapped) => (
            RuntimeModel { phase: Phase::Working, bootstrap_failures: 0, ..m },
            Action::Work(0),
        ),
        (Phase::Bootstrapping, Event::BootstrapFailed(f)) => {
            let n = bump(m.bootstrap_failures);
            let (ph, a) = follow(Phase::Bootstrapping, spec_decide(p.bootstrap_retry, n, f));
            (RuntimeModel { phase: ph, bootstrap_failures: n, ..m }, a)
        },
        (Phase::Working, Event::WorkDone) => (
            RuntimeModel { work_failures: 0, ..m },
            Action::Work(0),
        ),
        (Phase::Working, Event::WorkFailed(f)) => {
            let n = bump(m.work_failures);
            let (ph, a) = follow(Phase::Working, spec_decide(p.work_retry, n, f));
            (RuntimeModel { phase: ph, work_failures: n, ..m }, a)
        },
        (Phase::Working, Event::InputClosed) => (
            RuntimeModel { phase: Phase::TearingDown, ..m },
            Action::Teardown(0),
        ),
        (Phase::Bootstrapping, Event::ShutdownRequested) => (
            RuntimeModel { phase: Phase::TearingDown, ..m },
            Action::Teardown(0),
        ),
        (Phase::Working, Event::ShutdownRequested) => (
            RuntimeModel { phase: Phase::TearingDown, ..m },
            Action::Teardown(0),
        ),
        (Phase::TearingDown, Event::TornDown) => (
            RuntimeModel { phase: Phase::Stopped(Exit::Finished), teardown_failures: 0, ..m },
            Action::Stop,
        ),
        (Phase::TearingDown, Event::TeardownFailed(f)) => {
            let n = bump(m.teardown_failures);
            let (ph, a) = follow(Phase::TearingDown, spec_decide(p.teardown_retry, n, f));
            (RuntimeModel { phase: ph, teardown_failures: n, ..m }, a)
        },
        _ => (m, Action::Idle),
    }
}

/// The lifecycle of one stage, driven by the events its task reports.
#[derive(Debug, Clone, Copy)]
pub struct StageRuntime {
    pub policy: RuntimePolicy,
    pub phase: Phase,
    pub bootstrap: Attempts,
    pub work: Attempts,
    pub teardown: Attempts,
}

impl StageRuntime {
    /// The phase and failure counts.
    pub open spec fn view(&self) -> RuntimeModel {
        RuntimeModel {
            phase: self.phase,
            bootstrap_failures: self.bootstrap.failures as nat,
            work_failures: self.work.failures as nat,
            teardown_failures: self.teardown.failures as nat,
        }
    }

    /// A stage about to bootstrap, with no failure yet.
    pub fn new(policy: RuntimePolicy) -> (r: StageRuntime)
        ensures
            r.policy == policy,
            r@ == (RuntimeModel {
                phase: Phase::Bootstrapping,
                bootstrap_failures: 0,
                work_failures: 0,
                teardown_failures: 0,
            }),
    {
        StageRuntime {
            policy,
            phase: Phase::Bootstrapping,
            bootstrap: Attempts::new(),
            work: Attempts::new(),
            teardown: Attempts::new(),
        }
    }

    fn follow(&mut self, d: Decision) -> (r: Action)
        ensures
            (final(self).phase, r) == follow(old(self).phase, d),
            final(self).policy == old(self).policy,
            final(self).bootstrap == old(self).bootstrap,
            final(self).work == old(self).work,
            final(self).teardown == old(self).teardown,
    {
        match d {
            Decision::RetryAfter(x) => match self.phase {
                Phase::Bootstrapping => Action::Bootstrap(x),
                Phase::Working => Action::Work(x),
                _ => Action::Teardown(x),
            },
            Decision::RestartAfter(x) => match self.phase {
                Phase::TearingDown => Action::Teardown(x),
                _ => {
                    self.phase = Phase::Bootstrapping;
                    Action::Bootstrap(x)
                },
            },
            Decision::Dismiss => {
                self.phase = Phase::Stopped(Exit::Dismissed);
                Action::Stop
            },
            Decision::Abort => {
                self.phase = Phase::Stopped(Exit::Failed);
                Action::Abort
            },
        }
    }

    /// Takes the next event and returns what the stage does next.
    pub fn step(&mut self, e: Event) -> (r: Action)
        ensures
            final(self).policy == old(self).policy,
            (final(self)@, r) == spec_step(old(self).policy, old(self)@, e),
    {
        let p = self.policy;
        match (self.phase, e) {
            (Phase::Bootstrapping, Event::Bootstrapped) => {
                self.bootstrap.on_success();
                self.phase = Phase::Working;
                Action::Work(0)
            },
            (Phase::Bootstrapping, Event::BootstrapFailed(f)) => {
                let d = self.bootstrap.on_failure(&p.bootstrap_retry, f);
                self.follow(d)
            },
            (Phase::Working, Event::WorkDone) => {
                self.work.on_success();
                Action::Work(0)
            },
            (Phase::Working, Event::WorkFailed(f)) => {
                let d = self.work.on_failure(&p.work_retry, f);
                self.follow(d)
            },
            (Phase::Working, Event::InputClosed) => {
                self.phase = Phase::TearingDown;
                Action::Teardown(0)
            },
            (Phase::Bootstrapping, Event::ShutdownRequested) => {
                self.phase = Phase::TearingDown;
                Action::Teardown(0)
            },
            (Phase::Working, Event::ShutdownRequested) => {
                self.phase = Phase::TearingDown;
                Action::Teardown(0)
            },
            (Phase::TearingDown, Event::TornDown) => {
                self.teardown.on_success();
                self.phase = Phase::Stopped(Exit::Finished);
                Action::Stop
            },
            (Phase::TearingDown, Event::TeardownFailed(f)) => {
                let d = self.teardown.on_failure(&p.teardown_retry, f);
                self.follow(d)
            },
            _ => Action::Idle,
        }
    }

    /// Whether the stage has stopped, and how.
    pub fn exit(&self) -> (r: Option<Exit>)
        ensures
            r == match self.phase {
                Phase::Stopped(x) => Some(x),
                _ => None::<Exit>,
            },
    {
        match self.phase {
            Phase::Stopped(x) => Some(x),
            _ => None,
        }
    }
}

} // verus!
