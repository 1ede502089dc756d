use vstd::prelude::*;

use crate::errors::SupervisorError;
use crate::render::Bind;
use crate::store::DEFAULT_GATEWAY_PORT;
use crate::text::{affirms, contains_affirmative, is_blank, trimmed};

verus! {

/// A health probe reports healthy when either output stream carries the
/// affirmative marker — a case-insensitive substring heuristic, best-effort
/// by design, not a structured status code.
pub fn probe_healthy(stdout: &str, stderr: &str) -> (r: bool)
    ensures
        r == (affirms(stdout@) || affirms(stderr@)),
{
    if contains_affirmative(stdout) {
        true
    } else {
        contains_affirmative(stderr)
    }
}

/// The status reported across the host boundary: a fresh probe's verdict,
/// never the locally held handle.
pub fn status_label(healthy: bool) -> (r: String)
    ensures
        healthy ==> r@ == "running"@,
        !healthy ==> r@ == "stopped"@,
{
    if healthy {
        String::from_str("running")
    } else {
        String::from_str("stopped")
    }
}

/// How many health probes a start attempt may issue after a spawn.
pub const MAX_POLL_ATTEMPTS: u32 = 20;

/// The fixed sleep before each readiness probe, in milliseconds; there is no
/// backoff, so the worst-case wait before failing is exactly
/// `MAX_POLL_ATTEMPTS` times this.
pub const POLL_INTERVAL_MS: u64 = 500;

/// Where a start attempt stands.
#[derive(Clone, Copy, PartialEq, Eq, Structural, Debug)]
pub enum Phase {
    Provisioning,
    Probing,
    Spawning,
    Polling,
    Pairing,
    Running,
    Failed,
}

/// The state of one start attempt. Configuration reconciliation strictly
/// precedes the liveness probe, the probe any spawn, the spawn the readiness
/// polling, and the polling the pairing handshake; the phase enforces that
/// order.
pub struct StartMachine {
    pub phase: Phase,
    pub bind: Bind,
    pub token: String,
    pub polls_remaining: u32,
    pub spawned: bool,
}

/// What the caller reports back to the machine after performing the action
/// it was handed.
pub enum StartEvent {
    Provisioned { token: String },
    Probed { healthy: bool },
    Spawned { ok: bool, error: String },
    Polled { healthy: bool },
    Paired,
}

/// What the caller must do next. `Poll` asks for one sleep of the given
/// length followed by one health probe. `Pair` is issued once, after a fresh
/// spawn turned healthy; its outcome never fails the start. `Succeed` ends
/// the attempt with the gateway running; `Fail` ends it with the given
/// error, and the caller must not leave a half-alive subprocess untracked.
pub enum StartAction {
    Provision,
    Probe,
    Spawn { port: u16, bind: Bind },
    Poll { delay_ms: u64 },
    Pair { token: String },
    Succeed,
    Fail { error: SupervisorError },
}

/// A machine's counters are in range for its phase.
pub open spec fn machine_inv(m: StartMachine) -> bool {
    m.phase == Phase::Polling ==> 1 <= m.polls_remaining <= MAX_POLL_ATTEMPTS
}

/// Which event answers the pending action of each phase; terminal phases
/// accept none.
pub open spec fn event_fits(m: StartMachine, e: StartEvent) -> bool {
    match e {
        StartEvent::Provisioned { .. } => m.phase == Phase::Provisioning,
        StartEvent::Probed { .. } => m.phase == Phase::Probing,
        StartEvent::Spawned { .. } => m.phase == Phase::Spawning,
        StartEvent::Polled { .. } => m.phase == Phase::Polling,
        StartEvent::Paired => m.phase == Phase::Pairing,
    }
}

/// The whole start protocol as one transition function.
pub open spec fn step_spec(m: StartMachine, e: StartEvent) -> (StartMachine, StartAction) {
    match e {
        StartEvent::Provisioned { token } => (
            StartMachine { phase: Phase::Probing, token, ..m },
            StartAction::Probe,
        ),
        StartEvent::Probed { healthy } => if healthy {
            (StartMachine { phase: Phase::Running, ..m }, StartAction::Succeed)
        } else {
            (
                StartMachine { phase: Phase::Spawning, ..m },
                StartAction::Spawn { port: DEFAULT_GATEWAY_PORT, bind: m.bind },
            )
        },
        StartEvent::Spawned { ok, error } => if ok {
            (
                StartMachine {
                    phase: Phase::Polling,
                    polls_remaining: MAX_POLL_ATTEMPTS,
                    spawned: true,
                    ..m
                },
                StartAction::Poll { delay_ms: POLL_INTERVAL_MS },
            )
        } else {
            (
                StartMachine { phase: Phase::Failed, ..m },
                StartAction::Fail { error: SupervisorError::SpawnFailure(error) },
            )
        },
        StartEvent::Polled { healthy } => if healthy {
            (StartMachine { phase: Phase::Pairing, ..m }, StartAction::Pair { token: m.token })
        } else if m.polls_remaining > 1 {
            (
                StartMachine { polls_remaining: (m.polls_remaining - 1) as u32, ..m },
                StartAction::Poll { delay_ms: POLL_INTERVAL_MS },
            )
        } else {
            (
                StartMachine { phase: Phase::Failed, ..m },
                StartAction::Fail { error: SupervisorError::ReadinessTimeout },
            )
        },
        StartEvent::Paired => (StartMachine { phase: Phase::Running, ..m }, StartAction::Succeed),
    }
}

/// Opens a start attempt. A stored API key that is blank after trimming is
/// rejected at once — the gateway cannot authenticate upstream providers
/// without it — and nothing else happens; otherwise the caller is asked to
/// provision configuration and credentials first.
pub fn start_begin(api_key: &str, bind: Bind) -> (r: Result<(StartMachine, StartAction), SupervisorError>)
    ensures
        trimmed(api_key@).len() == 0 <==> r is Err,
        r matches Err(e) ==> e matches SupervisorError::Unconfigured(_),
        r matches Ok(p) ==> p.0.phase == Phase::Provisioning && p.0.bind == bind && !p.0.spawned
            && p.0.token@ == Seq::<char>::empty() && p.0.polls_remaining == 0 && machine_inv(p.0)
            && (p.1 matches StartAction::Provision),
{
    if is_blank(api_key) {
        return Err(
            SupervisorError::Unconfigured(String::from_str("add an API key in the agent settings first")),
        );
    }
    Ok(
        (
            StartMachine {
                phase: Phase::Provisioning,
                bind,
                token: String::new(),
                polls_remaining: 0,
                spawned: false,
            },
            StartAction::Provision,
        ),
    )
}

/// Feeds the outcome of the last action back in and hands out the next
/// action, exactly as `step_spec` says.
pub fn step(m: StartMachine, e: StartEvent) -> (r: (StartMachine, StartAction))
    requires
        event_fits(m, e),
        machine_inv(m),
    ensures
        r == step_spec(m, e),
        machine_inv(r.0),
{
    match e {
        StartEvent::Provisioned { token } => (
            StartMachine { phase: Phase::Probing, token, ..m },
            StartAction::Probe,
        ),
        StartEvent::Probed { healthy } => if healthy {
            (StartMachine { phase: Phase::Running, ..m }, StartAction::Succeed)
        } else {
            let bind = m.bind;
            (
                StartMachine { phase: Phase::Spawning, ..m },
                StartAction::Spawn { port: DEFAULT_GATEWAY_PORT, bind },
            )
        },
        StartEvent::Spawned { ok, error } => if ok {
            (
                StartMachine {
                    phase: Phase::Polling,
                    polls_remaining: MAX_POLL_ATTEMPTS,
                    spawned: true,
                    ..m
                },
                StartAction::Poll { delay_ms: POLL_INTERVAL_MS },
            )
        } else {
            (
                StartMachine { phase: Phase::Failed, ..m },
                StartAction::Fail { error: SupervisorError::SpawnFailure(error) },
            )
        },
        StartEvent::Polled { healthy } => if healthy {
            let token = m.token.clone();
            (StartMachine { phase: Phase::Pairing, ..m }, StartAction::Pair { token })
        } else if m.polls_remaining > 1 {
            let left = m.polls_remaining - 1;
            (
                StartMachine { polls_remaining: left, ..m },
                StartAction::Poll { delay_ms: POLL_INTERVAL_MS },
            )
        } else {
            (
                StartMachine { phase: Phase::Failed, ..m },
                StartAction::Fail { error: SupervisorError::ReadinessTimeout },
            )
        },
        StartEvent::Paired => (
            StartMachine { phase: Phase::Running, ..m },
            StartAction::Succeed,
        ),
    }
}

/// Law (reuse over respawn): when the initial liveness probe reports
/// healthy, the start attempt succeeds at once, nothing has been or will be
/// spawned, and the attempt is over — no event fits a finished machine.
pub proof fn lemma_reuse_over_respawn(m: StartMachine)
    requires
        m.phase == Phase::Probing,
        !m.spawned,
    ensures
        step_spec(m, StartEvent::Probed { healthy: true }).0.phase == Phase::Running,
        !step_spec(m, StartEvent::Probed { healthy: true }).0.spawned,
        step_spec(m, StartEvent::Probed { healthy: true }).1 == StartAction::Succeed,
        forall|e: StartEvent|
            !event_fits(#[trigger] step_spec(m, StartEvent::Probed { healthy: true }).0, e),
{
    let m2 = step_spec(m, StartEvent::Probed { healthy: true }).0;
    assert forall|e: StartEvent| !event_fits(m2, e) by {
        assert(m2.phase == Phase::Running);
    }
}

/// Law (strict step order): within one start attempt no step overlaps the
/// next — provisioning is answered by the liveness probe alone, a spawn can
/// only follow an unhealthy probe, polling only a successful spawn or an
/// unhealthy poll, pairing only a healthy poll, and a healthy first probe or
/// a completed pairing end the attempt.
pub proof fn lemma_start_order(m: StartMachine, e: StartEvent)
    requires
        event_fits(m, e),
    ensures
        step_spec(m, e).1 matches StartAction::Probe ==> m.phase == Phase::Provisioning,
        step_spec(m, e).1 matches StartAction::Spawn { .. } ==> m.phase == Phase::Probing && e
            == (StartEvent::Probed { healthy: false }),
        step_spec(m, e).1 matches StartAction::Poll { .. } ==> m.phase == Phase::Spawning
            || m.phase == Phase::Polling,
        step_spec(m, e).1 matches StartAction::Pair { .. } ==> m.phase == Phase::Polling && e
            == (StartEvent::Polled { healthy: true }),
        step_spec(m, e).1 matches StartAction::Succeed ==> m.phase == Phase::Probing || m.phase
            == Phase::Pairing,
{
}

/// The machine after `k` consecutive readiness probes that all came back
/// unhealthy.
pub open spec fn after_failed_polls(m: StartMachine, k: nat) -> StartMachine
    decreases k,
{
    if k == 0 {
        m
    } else {
        step_spec(after_failed_polls(m, (k - 1) as nat), StartEvent::Polled { healthy: false }).0
    }
}

/// Law (readiness timeout bound): with a gateway that never affirms, a
/// freshly started poll loop keeps polling — each round asking for one
/// fixed-length sleep — through exactly `MAX_POLL_ATTEMPTS` probes, never
/// failing earlier, and the last probe fails the attempt with a readiness
/// timeout; the worst-case wait is the attempt budget times the fixed
/// interval, ten seconds in all.
pub proof fn lemma_readiness_timeout_bound(m: StartMachine, k: nat)
    requires
        m.phase == Phase::Polling,
        m.polls_remaining == MAX_POLL_ATTEMPTS,
        k <= MAX_POLL_ATTEMPTS,
    ensures
        k < MAX_POLL_ATTEMPTS ==> after_failed_polls(m, k).phase == Phase::Polling
            && after_failed_polls(m, k).polls_remaining == MAX_POLL_ATTEMPTS - k,
        0 < k < MAX_POLL_ATTEMPTS ==> step_spec(
            after_failed_polls(m, (k - 1) as nat),
            StartEvent::Polled { healthy: false },
        ).1 == (StartAction::Poll { delay_ms: POLL_INTERVAL_MS }),
        k == MAX_POLL_ATTEMPTS ==> after_failed_polls(m, k).phase == Phase::Failed && step_spec(
            after_failed_polls(m, (k - 1) as nat),
            StartEvent::Polled { healthy: false },
        ).1 == (StartAction::Fail { error: SupervisorError::ReadinessTimeout }),
        MAX_POLL_ATTEMPTS as u64 * POLL_INTERVAL_MS == 10000,
    decreases k,
{
    if k > 0 {
        lemma_readiness_timeout_bound(m, (k - 1) as nat);
    }
}

} // verus!
