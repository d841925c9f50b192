//! Readiness of the companion process: the verdict of one liveness probe, and
//! the bounded waiter that probes on a fixed interval until the process
//! answers or the attempts run out.
//!
//! The waiter makes every decision; its driver performs what it asks for
//! (probe, sleep one interval) and reports each probe's verdict back.

use vstd::prelude::*;

verus! {

/// Pause between two probes of one wait, in milliseconds.
pub const PROBE_INTERVAL_MS: u64 = 500;

/// A progress notice is due after every this many failed attempts.
pub const PROGRESS_EVERY: u32 = 4;

/// How one liveness request ended.
#[derive(Clone, Copy, Debug, PartialEq, Eq)]
pub enum ProbeOutcome {
    /// No response: refused, reset, or failed in transport.
    TransportFailed,
    /// A response came, but after the caller's deadline.
    DeadlinePassed,
    /// A response with this status came in time.
    Responded(u16),
}

/// Success statuses are 200 through 299.
pub open spec fn is_success_status(status: u16) -> bool {
    200 <= status <= 299
}

/// Whether a status denotes success.
pub fn status_is_success(status: u16) -> (r: bool)
    ensures
        r == is_success_status(status),
{
    200 <= status && status <= 299
}

/// The probe is healthy exactly when a success status came in time.
pub open spec fn probe_healthy(outcome: ProbeOutcome) -> bool {
    outcome matches ProbeOutcome::Responded(s) && is_success_status(s)
}

/// The verdict of one probe: healthy or not, no distinction beyond that.
pub fn probe_verdict(outcome: ProbeOutcome) -> (r: bool)
    ensures
        r == probe_healthy(outcome),
        outcome is TransportFailed ==> !r,
        outcome is DeadlinePassed ==> !r,
        outcome matches ProbeOutcome::Responded(s) && s >= 300 ==> !r,
{
    match outcome {
        ProbeOutcome::Responded(s) => status_is_success(s),
        _ => false,
    }
}

/// What the waiter asks its driver to do next.
#[derive(Clone, Copy, Debug, PartialEq, Eq, Structural)]
pub enum WaitAction {
    /// Probe once and report the verdict.
    Probe,
    /// Sleep one interval, then probe once and report the verdict.
    Sleep,
    /// The process answered: the wait succeeded.
    Ready,
    /// The attempts ran out: the wait failed.
    TimedOut,
}

/// The state of one wait as the proofs see it.
pub struct WaiterView {
    pub max_attempts: nat,
    pub attempts: nat,
    pub finished: bool,
}

impl WaiterView {
    /// Attempts never exceed the bound, and an unfinished wait has one left.
    pub open spec fn wf(self) -> bool {
        &&& self.attempts <= self.max_attempts
        &&& !self.finished ==> self.attempts < self.max_attempts
    }

    /// The wait after one probe's verdict, and what it asks for next: a
    /// healthy verdict ends it at once, the last unhealthy one ends it
    /// without a sleep, any other asks for a sleep before the next probe.
    pub open spec fn probe_step(self, healthy: bool) -> (WaiterView, WaitAction) {
        let attempts = self.attempts + 1;
        if healthy {
            (WaiterView { attempts, finished: true, ..self }, WaitAction::Ready)
        } else if attempts >= self.max_attempts {
            (WaiterView { attempts, finished: true, ..self }, WaitAction::TimedOut)
        } else {
            (WaiterView { attempts, finished: false, ..self }, WaitAction::Sleep)
        }
    }
}

/// A fresh wait with the given bound, and its first request: a probe, or,
/// with no attempt allowed, the timeout at once.
pub open spec fn initial_wait(max_attempts: nat) -> (WaiterView, WaitAction) {
    (
        WaiterView { max_attempts, attempts: 0, finished: max_attempts == 0 },
        if max_attempts == 0 {
            WaitAction::TimedOut
        } else {
            WaitAction::Probe
        },
    )
}

/// What a driver saw while running a wait against a list of verdicts: the
/// final action, and how many probes and sleeps it performed.
pub struct WaitRun {
    pub last: WaitAction,
    pub probes: nat,
    pub sleeps: nat,
}

/// Runs the wait `w` against the verdicts `outcomes`, one per probe, until it
/// finishes or the verdicts run out.
pub open spec fn run_wait(w: WaiterView, outcomes: Seq<bool>) -> WaitRun
    decreases outcomes.len(),
{
    if w.finished || outcomes.len() == 0 {
        WaitRun { last: WaitAction::Probe, probes: 0, sleeps: 0 }
    } else {
        let (next, action) = w.probe_step(outcomes[0]);
        let rest = run_wait(next, outcomes.drop_first());
        WaitRun {
            last: if next.finished {
                action
            } else {
                rest.last
            },
            probes: rest.probes + 1,
            sleeps: rest.sleeps + if action == WaitAction::Sleep {
                1nat
            } else {
                0nat
            },
        }
    }
}

/// `k` is the index of the first healthy verdict in `outcomes`.
pub open spec fn first_healthy(outcomes: Seq<bool>, k: nat) -> bool {
    &&& k < outcomes.len()
    &&& outcomes[k as int]
    &&& forall|j: int| 0 <= j < k ==> !outcomes[j]
}

proof fn lemma_run_until_healthy(w: WaiterView, outcomes: Seq<bool>, k: nat)
    requires
        w.wf(),
        !w.finished,
        k < w.max_attempts - w.attempts,
        first_healthy(outcomes, k),
    ensures
        run_wait(w, outcomes) == (WaitRun { last: WaitAction::Ready, probes: k + 1, sleeps: k }),
    decreases k,
{
    let (next, action) = w.probe_step(outcomes[0]);
    if k > 0 {
        let rest = outcomes.drop_first();
        assert(first_healthy(rest, (k - 1) as nat)) by {
            assert forall|j: int| 0 <= j < k - 1 implies !rest[j] by {
                assert(rest[j] == outcomes[j + 1]);
            }
        }
        lemma_run_until_healthy(next, rest, (k - 1) as nat);
    } else {
        assert(run_wait(next, outcomes.drop_first()).probes == 0);
    }
}

proof fn lemma_run_never_healthy(w: WaiterView, outcomes: Seq<bool>)
    requires
        w.wf(),
        !w.finished,
        outcomes.len() >= w.max_attempts - w.attempts,
        forall|j: int| 0 <= j < w.max_attempts - w.attempts ==> !outcomes[j],
    ensures
        run_wait(w, outcomes) == (WaitRun {
            last: WaitAction::TimedOut,
            probes: (w.max_attempts - w.attempts) as nat,
            sleeps: (w.max_attempts - w.attempts - 1) as nat,
        }),
    decreases w.max_attempts - w.attempts,
{
    let (next, action) = w.probe_step(outcomes[0]);
    if !next.finished {
        let rest = outcomes.drop_first();
        assert forall|j: int| 0 <= j < next.max_attempts - next.attempts implies !rest[j] by {
            assert(rest[j] == outcomes[j + 1]);
        }
        lemma_run_never_healthy(next, rest);
    } else {
        assert(run_wait(next, outcomes.drop_first()).probes == 0);
    }
}

/// A wait bounded by `n` attempts, run against verdicts whose first healthy
/// one is at index `k < n`, succeeds after exactly `k + 1` probes and `k`
/// sleeps: it stops probing at the first healthy verdict.
pub proof fn wait_succeeds_at_first_healthy(n: nat, outcomes: Seq<bool>, k: nat)
    requires
        k < n,
        first_healthy(outcomes, k),
    ensures
        initial_wait(n).1 == WaitAction::Probe,
        run_wait(initial_wait(n).0, outcomes) == (WaitRun {
            last: WaitAction::Ready,
            probes: k + 1,
            sleeps: k,
        }),
{
    lemma_run_until_healthy(initial_wait(n).0, outcomes, k);
}

/// A wait bounded by `n` attempts whose first `n` verdicts are all unhealthy
/// times out after exactly `n` probes and `n - 1` sleeps: no sleep follows
/// the last failed attempt. With `n == 0` it times out at once, unprobed.
pub proof fn wait_times_out_when_never_healthy(n: nat, outcomes: Seq<bool>)
    requires
        outcomes.len() >= n,
        forall|j: int| 0 <= j < n ==> !outcomes[j],
    ensures
        n == 0 ==> initial_wait(n).1 == WaitAction::TimedOut,
        n == 0 ==> run_wait(initial_wait(n).0, outcomes).probes == 0,
        n > 0 ==> initial_wait(n).1 == WaitAction::Probe,
        n > 0 ==> run_wait(initial_wait(n).0, outcomes) == (WaitRun {
            last: WaitAction::TimedOut,
            probes: n,
            sleeps: (n - 1) as nat,
        }),
{
    if n > 0 {
        lemma_run_never_healthy(initial_wait(n).0, outcomes);
    }
}

/// One bounded wait for readiness.
#[derive(Clone, Copy, Debug)]
pub struct ReadinessWaiter {
    max_attempts: u32,
    attempts: u32,
    finished: bool,
}

impl View for ReadinessWaiter {
    type V = WaiterView;

    closed spec fn view(&self) -> WaiterView {
        WaiterView {
            max_attempts: self.max_attempts as nat,
            attempts: self.attempts as nat,
            finished: self.finished,
        }
    }
}

impl ReadinessWaiter {
    /// Starts a wait of at most `max_attempts` probes; returns it with its
    /// first request.
    pub fn new(max_attempts: u32) -> (r: (ReadinessWaiter, WaitAction))
        ensures
            (r.0@, r.1) == initial_wait(max_attempts as nat),
            r.0@.wf(),
    {
        let w = ReadinessWaiter { max_attempts, attempts: 0, finished: max_attempts == 0 };
        let action = if max_attempts == 0 {
            WaitAction::TimedOut
        } else {
            WaitAction::Probe
        };
        (w, action)
    }

    /// Records the verdict of the probe that the last action asked for, and
    /// returns the next action.
    pub fn record_probe(&mut self, healthy: bool) -> (r: WaitAction)
        requires
            old(self)@.wf(),
            !old(self)@.finished,
        ensures
            (final(self)@, r) == old(self)@.probe_step(healthy),
            final(self)@.wf(),
    {
        self.attempts = self.attempts + 1;
        if healthy {
            self.finished = true;
            WaitAction::Ready
        } else if self.attempts >= self.max_attempts {
            self.finished = true;
            WaitAction::TimedOut
        } else {
            WaitAction::Sleep
        }
    }

    /// Whether the wait has ended.
    pub fn is_finished(&self) -> (r: bool)
        ensures
            r == self@.finished,
    {
        self.finished
    }

    /// Probes made so far.
    pub fn attempts(&self) -> (r: u32)
        ensures
            r as nat == self@.attempts,
    {
        self.attempts
    }

    /// The bound on probes.
    pub fn max_attempts(&self) -> (r: u32)
        ensures
            r as nat == self@.max_attempts,
    {
        self.max_attempts
    }

    /// A progress notice is due after the first failed attempt and then
    /// after every fourth one.
    pub fn progress_due(&self) -> (r: bool)
        ensures
            r == (self@.attempts > 0 && (self@.attempts - 1) % (PROGRESS_EVERY as int) == 0),
    {
        self.attempts > 0 && (self.attempts - 1) % PROGRESS_EVERY == 0
    }
}

} // verus!
