//! The companion-process supervisor: the shared lifecycle state (listening
//! port, running flag), the loopback addresses, and one start of the process
//! as a session that decides each step while its driver performs it
//! (probe, launch, sleep).
//!
//! A start short-circuits when the process is known to run and a fresh probe
//! is healthy; otherwise it launches the process once and waits for it with a
//! bounded `ReadinessWaiter`. Only a successful wait sets the running flag.

use vstd::prelude::*;
use crate::error::SidecarError;
use crate::readiness::{ReadinessWaiter, WaitAction, WaiterView, initial_wait};

verus! {

/// The port that the companion process is told to bind.
pub const DEFAULT_AGENT_PORT: u16 = 19820;

/// The bound on probes while waiting for a freshly launched process.
pub const START_ATTEMPTS: u32 = 20;

/// The character of one decimal digit.
pub open spec fn digit_char(d: nat) -> char {
    seq!['0', '1', '2', '3', '4', '5', '6', '7', '8', '9'][(d % 10) as int]
}

/// The decimal digits of `n`, most significant first, without leading zeros.
pub open spec fn decimal(n: nat) -> Seq<char>
    decreases n,
{
    if n < 10 {
        seq![digit_char(n)]
    } else {
        decimal(n / 10).push(digit_char(n % 10))
    }
}

/// Relies on `u16`'s `Display`, through `to_string`: the number in decimal,
/// without sign or leading zeros.
#[verifier::external_body]
fn port_text(n: u16) -> (r: String)
    ensures
        r@ == decimal(n as nat),
{
    n.to_string()
}

/// The loopback address of the companion listening on `port`.
pub open spec fn base_url(port: u16) -> Seq<char> {
    "http://127.0.0.1:"@ + decimal(port as nat)
}

/// The lifecycle state as the proofs see it.
pub struct SidecarView {
    pub port: u16,
    pub running: bool,
}

/// The lifecycle state shared by all callers: the port fixed at construction,
/// and whether a start has been seen to succeed.
#[derive(Debug)]
pub struct SidecarState {
    port: u16,
    is_running: bool,
}

impl View for SidecarState {
    type V = SidecarView;

    closed spec fn view(&self) -> SidecarView {
        SidecarView { port: self.port, running: self.is_running }
    }
}

impl Default for SidecarState {
    fn default() -> (r: SidecarState)
        ensures
            r@ == (SidecarView { port: DEFAULT_AGENT_PORT, running: false }),
    {
        SidecarState { port: DEFAULT_AGENT_PORT, is_running: false }
    }
}

impl SidecarState {
    /// The state at process start: the default port, not running.
    pub fn new() -> (r: SidecarState)
        ensures
            r@ == (SidecarView { port: DEFAULT_AGENT_PORT, running: false }),
    {
        SidecarState { port: DEFAULT_AGENT_PORT, is_running: false }
    }

    pub fn port(&self) -> (r: u16)
        ensures
            r == self@.port,
    {
        self.port
    }

    pub fn is_running(&self) -> (r: bool)
        ensures
            r == self@.running,
    {
        self.is_running
    }

    /// The base address of the companion's API.
    pub fn get_base_url(&self) -> (r: String)
        ensures
            r@ == base_url(self@.port),
    {
        String::from_str("http://127.0.0.1:").concat(port_text(self.port).as_str())
    }

    /// The address of the liveness check.
    pub fn health_url(&self) -> (r: String)
        ensures
            r@ == base_url(self@.port) + "/health"@,
    {
        self.get_base_url().concat("/health")
    }

    /// The address of the generation call.
    pub fn generate_sop_url(&self) -> (r: String)
        ensures
            r@ == base_url(self@.port) + "/generate-sop"@,
    {
        self.get_base_url().concat("/generate-sop")
    }

    /// The sole argument that the companion is launched with: its port.
    pub fn launch_argument(&self) -> (r: String)
        ensures
            r@ == decimal(self@.port as nat),
    {
        port_text(self.port)
    }

    /// Begins one start of the companion; returns the session with its first
    /// request: a probe where the process is known to run, else a launch.
    pub fn ensure_started(&self) -> (r: (StartSession, StartAction))
        ensures
            (r.0@, r.1) == start_begin(self@),
            r.0@.wf(),
    {
        if self.is_running {
            (StartSession { phase: StartPhase::Checking }, StartAction::Probe)
        } else {
            (StartSession { phase: StartPhase::Launching }, StartAction::Launch)
        }
    }
}

/// What a start asks its driver to do next.
#[derive(Debug, PartialEq, Eq)]
pub enum StartAction {
    /// Probe the companion once and report the verdict.
    Probe,
    /// Launch the companion with the launch argument and report the outcome.
    Launch,
    /// Sleep one probe interval, then probe once and report the verdict.
    Sleep,
    /// The start is over, with this result.
    Finished(Result<(), SidecarError>),
}

/// Where a start stands, as the proofs see it.
pub enum PhaseView {
    Checking,
    Launching,
    Awaiting(WaiterView),
    Finished,
}

/// Where a start stands.
#[derive(Clone, Copy, Debug)]
pub enum StartPhase {
    /// The process is believed to run; the probe of that belief is out.
    Checking,
    /// The launch is out.
    Launching,
    /// The process was launched; this wait is running.
    Awaiting(ReadinessWaiter),
    /// The start is over.
    Finished,
}

/// One start of the companion process.
#[derive(Clone, Copy, Debug)]
pub struct StartSession {
    phase: StartPhase,
}

impl PhaseView {
    /// A wait in progress is well formed.
    pub open spec fn wf(self) -> bool {
        self matches PhaseView::Awaiting(w) ==> w.wf()
    }

    /// The session waits for a probe's verdict.
    pub open spec fn awaits_probe(self) -> bool {
        ||| self is Checking
        ||| self matches PhaseView::Awaiting(w) && !w.finished
    }
}

impl View for StartSession {
    type V = PhaseView;

    closed spec fn view(&self) -> PhaseView {
        match self.phase {
            StartPhase::Checking => PhaseView::Checking,
            StartPhase::Launching => PhaseView::Launching,
            StartPhase::Awaiting(w) => PhaseView::Awaiting(w@),
            StartPhase::Finished => PhaseView::Finished,
        }
    }
}

/// The first step of a start: probe a process believed to run, else launch.
pub open spec fn start_begin(s: SidecarView) -> (PhaseView, StartAction) {
    if s.running {
        (PhaseView::Checking, StartAction::Probe)
    } else {
        (PhaseView::Launching, StartAction::Launch)
    }
}

/// How a start moves on when a probe reports: where it goes, what it asks
/// for, and the lifecycle state after. A healthy check ends the start; an
/// unhealthy one leads to a launch. During the wait the waiter decides, and only its
/// success sets the running flag.
pub open spec fn start_probe_step(p: PhaseView, healthy: bool, s: SidecarView) -> (
    PhaseView,
    StartAction,
    SidecarView,
) {
    match p {
        PhaseView::Checking => if healthy {
            (PhaseView::Finished, StartAction::Finished(Ok(())), s)
        } else {
            (PhaseView::Launching, StartAction::Launch, s)
        },
        PhaseView::Awaiting(w) => {
            let (next, action) = w.probe_step(healthy);
            match action {
                WaitAction::Ready => (
                    PhaseView::Finished,
                    StartAction::Finished(Ok(())),
                    SidecarView { running: true, ..s },
                ),
                WaitAction::Sleep => (PhaseView::Awaiting(next), StartAction::Sleep, s),
                _ => (
                    PhaseView::Finished,
                    StartAction::Finished(Err(SidecarError::ReadinessTimeout)),
                    s,
                ),
            }
        },
        _ => (p, StartAction::Finished(Ok(())), s),
    }
}

/// A start after the launch: a failed launch ends it with a launch error; a
/// successful one begins the bounded wait with its first probe.
pub open spec fn start_launch_step(launched: Result<(), String>) -> (PhaseView, StartAction) {
    match launched {
        Ok(()) => (PhaseView::Awaiting(initial_wait(START_ATTEMPTS as nat).0), StartAction::Probe),
        Err(d) => (PhaseView::Finished, StartAction::Finished(Err(SidecarError::Launch(d)))),
    }
}

impl StartSession {
    /// Records the verdict of the probe that the last action asked for; may
    /// set the running flag; returns the next action.
    pub fn record_probe(&mut self, state: &mut SidecarState, healthy: bool) -> (r: StartAction)
        requires
            old(self)@.wf(),
            old(self)@.awaits_probe(),
        ensures
            (final(self)@, r, final(state)@) == start_probe_step(old(self)@, healthy, old(state)@),
            final(self)@.wf(),
    {
        match self.phase {
            StartPhase::Checking => {
                if healthy {
                    self.phase = StartPhase::Finished;
                    StartAction::Finished(Ok(()))
                } else {
                    self.phase = StartPhase::Launching;
                    StartAction::Launch
                }
            },
            StartPhase::Awaiting(w) => {
                let mut w = w;
                let action = w.record_probe(healthy);
                match action {
                    WaitAction::Ready => {
                        state.is_running = true;
                        self.phase = StartPhase::Finished;
                        StartAction::Finished(Ok(()))
                    },
                    WaitAction::Sleep => {
                        self.phase = StartPhase::Awaiting(w);
                        StartAction::Sleep
                    },
                    _ => {
                        self.phase = StartPhase::Finished;
                        StartAction::Finished(Err(SidecarError::ReadinessTimeout))
                    },
                }
            },
            _ => StartAction::Finished(Ok(())),
        }
    }

    /// Records how the launch that the last action asked for went; returns
    /// the next action.
    pub fn record_launch(&mut self, launched: Result<(), String>) -> (r: StartAction)
        requires
            old(self)@ is Launching,
        ensures
            (final(self)@, r) == start_launch_step(launched),
            final(self)@.wf(),
    {
        match launched {
            Ok(()) => {
                let (w, _first) = ReadinessWaiter::new(START_ATTEMPTS);
                self.phase = StartPhase::Awaiting(w);
                StartAction::Probe
            },
            Err(d) => {
                self.phase = StartPhase::Finished;
                StartAction::Finished(Err(SidecarError::Launch(d)))
            },
        }
    }

    /// Whether the start is over.
    pub fn is_finished(&self) -> (r: bool)
        ensures
            r == (self@ is Finished),
    {
        matches!(self.phase, StartPhase::Finished)
    }
}

/// When the process is known to run and a fresh probe is healthy, a start is
/// a no-op: it asks for that one probe, never for a launch, ends in success,
/// and leaves the lifecycle state as it was.
pub proof fn start_is_noop_when_running_and_healthy(s: SidecarView)
    requires
        s.running,
    ensures
        start_begin(s).1 == StartAction::Probe,
        start_probe_step(start_begin(s).0, true, s) == (
            PhaseView::Finished,
            StartAction::Finished(Ok(())),
            s,
        ),
{
}

/// A start changes the lifecycle state only by setting the running flag, and
/// only when its wait succeeds; a failed start leaves the flag as it was.
pub proof fn start_only_success_sets_running(p: PhaseView, healthy: bool, s: SidecarView)
    requires
        p.wf(),
        p.awaits_probe(),
    ensures
        ({
            let (next, action, after) = start_probe_step(p, healthy, s);
            &&& after.port == s.port
            &&& after != s ==> action == StartAction::Finished(Ok(())) && after.running
            &&& action is Finished && action != StartAction::Finished(Ok(())) ==> after == s
        }),
{
}

/// A start launches the process at most once: once launched, neither a
/// probe's verdict during the wait nor the launch's outcome leads to another
/// launch.
pub proof fn start_launches_at_most_once(
    w: WaiterView,
    healthy: bool,
    s: SidecarView,
    launched: Result<(), String>,
)
    requires
        w.wf(),
        !w.finished,
    ensures
        start_probe_step(PhaseView::Awaiting(w), healthy, s).1 != StartAction::Launch,
        start_probe_step(PhaseView::Awaiting(w), healthy, s).0 !is Launching,
        start_launch_step(launched).1 != StartAction::Launch,
        start_launch_step(launched).0 !is Launching,
{
}

} // verus!
