use vstd::prelude::*;

verus! {

/// Retry policy for one phase of a stage (bootstrap, work or teardown).
/// Delays are in milliseconds.
#[derive(Debug, Clone, Copy, PartialEq, Eq, Structural)]
pub struct Policy {
    pub max_retries: u32,
    pub backoff_unit: u64,
    pub backoff_factor: u64,
    pub max_backoff: u64,
    pub dismissible: bool,
}

/// How a failed operation is classified.
#[derive(Debug, Clone, Copy, PartialEq, Eq, Structural)]
pub enum Failure {
    /// Transient: run the same operation again, keeping the worker state.
    Retry,
    /// The worker state is unusable: discard it and bootstrap again.
    Restart,
    /// Unrecoverable: abort the stage.
    Fatal,
}

/// What the runtime does after a failure.
#[derive(Debug, Clone, Copy, PartialEq, Eq, Structural)]
pub enum Decision {
    /// Wait the given delay, then run the same operation again.
    RetryAfter(u64),
    /// Wait the given delay, then discard the worker and bootstrap again.
    RestartAfter(u64),
    /// Stop this stage quietly; the rest of the pipeline goes on.
    Dismiss,
    /// Stop the whole pipeline.
    Abort,
}

/// `b` to the power `e`.
pub open spec fn pow(b: int, e: nat) -> int
    decreases e,
{
    if e == 0 {
        1
    } else {
        b * pow(b, (e - 1) as nat)
    }
}

/// Delay before retry attempt `n` (from 1): `min(unit * factor^(n-1), max)`.
pub open spec fn spec_delay(p: Policy, n: nat) -> int
    recommends
        n >= 1,
{
    let d = p.backoff_unit * pow(p.backoff_factor as int, (n - 1) as nat);
    if d < p.max_backoff {
        d
    } else {
        p.max_backoff as int
    }
}

/// The decision owed after the `n`-th consecutive failure (from 1) of kind `f`.
pub open spec fn spec_decide(p: Policy, n: nat, f: Failure) -> Decision
    recommends
        n >= 1,
{
    if f != Failure::Fatal && n <= p.max_retries {
        if f == Failure::Retry {
            Decision::RetryAfter(spec_delay(p, n) as u64)
        } else {
            Decision::RestartAfter(spec_delay(p, n) as u64)
        }
    } else if p.dismissible {
        Decision::Dismiss
    } else {
        Decision::Abort
    }
}

proof fn lemma_pow_nonneg(b: int, e: nat)
    requires
        b >= 0,
    ensures
        pow(b, e) >= 0,
    decreases e,
{
    if e > 0 {
        lemma_pow_nonneg(b, (e - 1) as nat);
        assert(b * pow(b, (e - 1) as nat) >= 0) by (nonlinear_arith)
            requires
                b >= 0,
                pow(b, (e - 1) as nat) >= 0,
        ;
    }
}

proof fn lemma_pow_grows(u: int, b: int, e1: nat, e2: nat)
    requires
        u >= 0,
        b >= 1,
        e1 <= e2,
    ensures
        u * pow(b, e1) <= u * pow(b, e2),
    decreases e2 - e1,
{
    if e1 < e2 {
        lemma_pow_grows(u, b, e1, (e2 - 1) as nat);
        lemma_pow_nonneg(b, (e2 - 1) as nat);
        let q = pow(b, (e2 - 1) as nat);
        assert(u * q <= u * (b * q)) by (nonlinear_arith)
            requires
                u >= 0,
                b >= 1,
                q >= 0,
        ;
    }
}

proof fn lemma_pow_zero_base(e: nat)
    requires
        e >= 1,
    ensures
        pow(0, e) == 0,
{
}

impl Policy {
    /// Delay in milliseconds before retry attempt `attempt` (from 1).
    pub fn backoff(&self, attempt: u32) -> (r: u64)
        requires
            attempt >= 1,
        ensures
            r == spec_delay(*self, attempt as nat),
    {
        let unit = self.backoff_unit;
        let max = self.max_backoff;
        if attempt >= 2 && self.backoff_factor == 0 {
            proof {
                lemma_pow_zero_base((attempt - 1) as nat);
            }
            return if 0 < max { 0 } else { max };
        }
        let f = self.backoff_factor;
        let mut d: u64 = unit;
        let mut i: u32 = 1;
        while i < attempt
            invariant
                1 <= i <= attempt,
                attempt >= 2 ==> f >= 1,
                f == self.backoff_factor,
                unit == self.backoff_unit,
                max == self.max_backoff,
                d == unit * pow(f as int, (i - 1) as nat),
            decreases attempt - i,
        {
            if d >= max {
                proof {
                    lemma_pow_grows(unit as int, f as int, (i - 1) as nat, (attempt - 1) as nat);
                }
                return max;
            }
            if d > max / f {
                proof {
                    assert(d * f > max) by (nonlinear_arith)
                        requires
                            d > max / f,
                            f >= 1,
                    ;
                    assert(unit * pow(f as int, i as nat) == d * f) by (nonlinear_arith)
                        requires
                            d == unit * pow(f as int, (i - 1) as nat),
                            pow(f as int, i as nat) == f * pow(f as int, (i - 1) as nat),
                    ;
                    lemma_pow_grows(unit as int, f as int, i as nat, (attempt - 1) as nat);
                }
                return max;
            }
            proof {
                assert(d * f <= max) by (nonlinear_arith)
                    requires
                        d <= max / f,
                        f >= 1,
                ;
                assert(unit * pow(f as int, i as nat) == d * f) by (nonlinear_arith)
                    requires
                        d == unit * pow(f as int, (i - 1) as nat),
                        pow(f as int, i as nat) == f * pow(f as int, (i - 1) as nat),
                ;
            }
            d = d * f;
            i = i + 1;
        }
        if d < max {
            d
        } else {
            max
        }
    }

    /// The decision after the `failures`-th consecutive failure (from 1) of
    /// kind `f`: while the retry budget lasts, retry or restart after the
    /// backoff delay; after a fatal failure or once the budget is spent, a
    /// dismissible stage stops quietly and any other aborts the pipeline.
    pub fn decide(&self, failures: u32, f: Failure) -> (r: Decision)
        requires
            failures >= 1,
        ensures
            r == spec_decide(*self, failures as nat, f),
    {
        if f != Failure::Fatal && failures <= self.max_retries {
            let d = self.backoff(failures);
            if f == Failure::Retry {
                Decision::RetryAfter(d)
            } else {
                Decision::RestartAfter(d)
            }
        } else if self.dismissible {
            Decision::Dismiss
        } else {
            Decision::Abort
        }
    }
}

/// Consecutive failures of one phase of a stage. A success starts the count
/// over.
#[derive(Debug, Clone, Copy, PartialEq, Eq, Structural)]
pub struct Attempts {
    pub failures: u32,
}

impl Attempts {
    /// No failure yet.
    pub fn new() -> (r: Attempts)
        ensures
            r.failures == 0,
    {
        Attempts { failures: 0 }
    }

    /// Records a failure of kind `f` and returns what the runtime does next.
    /// The count saturates at `u32::MAX`.
    pub fn on_failure(&mut self, policy: &Policy, f: Failure) -> (r: Decision)
        ensures
            final(self).failures == if old(self).failures < u32::MAX {
                old(self).failures + 1
            } else {
                old(self).failures as int
            },
            r == spec_decide(*policy, final(self).failures as nat, f),
    {
        if self.failures < u32::MAX {
            self.failures = self.failures + 1;
        }
        policy.decide(self.failures, f)
    }

    /// Records a success: the next failure is the first again.
    pub fn on_success(&mut self)
        ensures
            final(self).failures == 0,
    {
        self.failures = 0;
    }
}

/// The policy that doubles a one-second delay up to a one-minute cap.
pub open spec fn doubling_policy(dismissible: bool) -> Policy {
    Policy {
        max_retries: 20,
        backoff_unit: 1000,
        backoff_factor: 2,
        max_backoff: 60000,
        dismissible,
    }
}

/// With a one-second unit, a factor of two and a one-minute cap, retry
/// attempt `n` waits `2^(n-1)` seconds for the first six attempts and one
/// minute from the seventh on.
pub proof fn lemma_doubling_schedule(dismissible: bool, n: nat)
    requires
        n >= 1,
    ensures
        n <= 6 ==> spec_delay(doubling_policy(dismissible), n) == 1000 * pow(2, (n - 1) as nat),
        n >= 7 ==> spec_delay(doubling_policy(dismissible), n) == 60000,
{
    reveal_with_fuel(pow, 7);
    if n >= 7 {
        lemma_pow_grows(1000, 2, 6, (n - 1) as nat);
    }
}

/// With a factor of at least one, the delay never shrinks from one attempt to
/// the next, and never exceeds the cap.
pub proof fn lemma_delays_grow_to_cap(p: Policy, n: nat)
    requires
        n >= 1,
        p.backoff_factor >= 1,
    ensures
        spec_delay(p, n) <= spec_delay(p, n + 1),
        spec_delay(p, n) <= p.max_backoff,
{
    lemma_pow_grows(p.backoff_unit as int, p.backoff_factor as int, (n - 1) as nat, n);
}

/// Once the retry budget is spent, a dismissible stage is stopped quietly and
/// a stage that is not dismissible stops the pipeline, whatever the failure.
pub proof fn lemma_exhausted_retries(p: Policy, n: nat, f: Failure)
    requires
        n > p.max_retries,
    ensures
        p.dismissible ==> spec_decide(p, n, f) == Decision::Dismiss,
        !p.dismissible ==> spec_decide(p, n, f) == Decision::Abort,
{
}

/// Within the retry budget a retryable failure is retried, and a restart is
/// asked for, after the backoff delay of that attempt.
pub proof fn lemma_within_budget(p: Policy, n: nat, f: Failure)
    requires
        1 <= n <= p.max_retries,
        f != Failure::Fatal,
    ensures
        f == Failure::Retry ==> spec_decide(p, n, f) == Decision::RetryAfter(
            spec_delay(p, n) as u64,
        ),
        f == Failure::Restart ==> spec_decide(p, n, f) == Decision::RestartAfter(
            spec_delay(p, n) as u64,
        ),
{
}

} // verus!
