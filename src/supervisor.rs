use vstd::prelude::*;

use crate::retry::{Failure, Policy};
use crate::runtime::{
    bump, spec_step, Action, Event, Exit, Phase, RuntimeModel, RuntimePolicy,
};

verus! {

/// Mathematical value of a supervisor: how each stage ended so far, and
/// whether the pipeline is shutting down.
pub struct SupervisorModel {
    pub exits: Seq<Option<Exit>>,
    pub shutdown: bool,
}

/// The supervisor after stage `i` ended with `x`: only a failure that ends
/// the pipeline starts a shutdown.
pub open spec fn spec_record(s: SupervisorModel, i: int, x: Exit) -> SupervisorModel {
    SupervisorModel { exits: s.exits.update(i, Some(x)), shutdown: s.shutdown || x == Exit::Failed }
}

/// Holds the handles of the running stages; the process waits on it until
/// every stage has ended, and a fatal end of one asks the others to stop.
#[derive(Debug)]
pub struct Supervisor {
    exits: Vec<Option<Exit>>,
    shutdown: bool,
}

impl Supervisor {
    /// How each stage ended so far, and whether a shutdown was asked for.
    pub closed spec fn view(&self) -> SupervisorModel {
        SupervisorModel { exits: self.exits@, shutdown: self.shutdown }
    }

    /// A supervisor of `stages` running stages.
    pub fn new(stages: usize) -> (r: Supervisor)
        ensures
            r@.exits == Seq::new(stages as nat, |i: int| None::<Exit>),
            !r@.shutdown,
    {
        let mut exits: Vec<Option<Exit>> = Vec::with_capacity(stages);
        let mut i: usize = 0;
        while i < stages
            invariant
                i <= stages,
                exits@ == Seq::new(i as nat, |k: int| None::<Exit>),
            decreases stages - i,
        {
            exits.push(None);
            i = i + 1;
            assert(exits@ =~= Seq::new(i as nat, |k: int| None::<Exit>));
        }
        Supervisor { exits, shutdown: false }
    }

    /// Number of supervised stages.
    pub fn stages(&self) -> (r: usize)
        ensures
            r == self@.exits.len(),
    {
        self.exits.len()
    }

    /// Records that stage `i` ended with `x`; returns whether the pipeline is
    /// now shutting down.
    pub fn record_exit(&mut self, i: usize, x: Exit) -> (r: bool)
        requires
            i < old(self)@.exits.len(),
        ensures
            final(self)@ == spec_record(old(self)@, i as int, x),
            r == final(self)@.shutdown,
    {
        self.exits.set(i, Some(x));
        if x == Exit::Failed {
            self.shutdown = true;
        }
        self.shutdown
    }

    /// Whether the running stages are asked to stop at their next cycle.
    pub fn shutdown_requested(&self) -> (r: bool)
        ensures
            r == self@.shutdown,
    {
        self.shutdown
    }

    /// Whether every stage has ended.
    pub fn all_exited(&self) -> (r: bool)
        ensures
            r == forall|k: int| 0 <= k < self@.exits.len() ==> (#[trigger] self@.exits[k]) is Some,
    {
        let mut i: usize = 0;
        while i < self.exits.len()
            invariant
                i <= self.exits.len(),
                forall|k: int| 0 <= k < i ==> (#[trigger] self@.exits[k]) is Some,
            decreases self.exits.len() - i,
        {
            if self.exits[i].is_none() {
                return false;
            }
            i = i + 1;
        }
        true
    }

    /// Whether the pipeline ended on a fatal failure.
    pub fn failed(&self) -> (r: bool)
        ensures
            r == exists|k: int|
                0 <= k < self@.exits.len() && #[trigger] self@.exits[k] == Some(Exit::Failed),
    {
        let mut i: usize = 0;
        while i < self.exits.len()
            invariant
                i <= self.exits.len(),
                forall|k: int| 0 <= k < i ==> #[trigger] self@.exits[k] != Some(Exit::Failed),
            decreases self.exits.len() - i,
        {
            if self.exits[i] == Some(Exit::Failed) {
                assert(self@.exits[i as int] == Some(Exit::Failed));
                return true;
            }
            i = i + 1;
        }
        false
    }
}

/// The failure event of a live phase.
pub open spec fn failure_event(phase: Phase, f: Failure) -> Event {
    match phase {
        Phase::Bootstrapping => Event::BootstrapFailed(f),
        Phase::Working => Event::WorkFailed(f),
        _ => Event::TeardownFailed(f),
    }
}

/// The retry policy and failure count of a live phase.
pub open spec fn phase_budget(p: RuntimePolicy, m: RuntimeModel) -> (Policy, nat) {
    match m.phase {
        Phase::Bootstrapping => (p.bootstrap_retry, m.bootstrap_failures),
        Phase::Working => (p.work_retry, m.work_failures),
        _ => (p.teardown_retry, m.teardown_failures),
    }
}

/// A stage that fails once more after spending the retry budget of its phase
/// stops. If that phase is dismissible it stops quietly: the other stages'
/// records stay as they were and no shutdown is asked for. Otherwise the
/// stage fails and the whole pipeline shuts down.
pub proof fn lemma_exhausted_stage(
    p: RuntimePolicy,
    m: RuntimeModel,
    f: Failure,
    s: SupervisorModel,
    i: int,
)
    requires
        m.phase is Bootstrapping || m.phase is Working || m.phase is TearingDown,
        bump(phase_budget(p, m).1) > phase_budget(p, m).0.max_retries,
        0 <= i < s.exits.len(),
    ensures
        ({
            let (m2, a) = spec_step(p, m, failure_event(m.phase, f));
            let dismissible = phase_budget(p, m).0.dismissible;
            &&& dismissible ==> a == Action::Stop && m2.phase == Phase::Stopped(Exit::Dismissed)
                && spec_record(s, i, Exit::Dismissed).shutdown == s.shutdown
                && forall|k: int|
                0 <= k < s.exits.len() && k != i ==> #[trigger] spec_record(
                    s,
                    i,
                    Exit::Dismissed,
                ).exits[k] == s.exits[k]
            &&& !dismissible ==> a == Action::Abort && m2.phase == Phase::Stopped(Exit::Failed)
                && spec_record(s, i, Exit::Failed).shutdown
        }),
{
}

} // verus!
