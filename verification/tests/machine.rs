use clapp::errors::SupervisorError;
use clapp::render::Bind;
use clapp::supervisor::{
    probe_healthy, start_begin, status_label, step, Phase, StartAction, StartEvent, StartMachine,
    MAX_POLL_ATTEMPTS, POLL_INTERVAL_MS,
};

fn begin_provisioned(token: &str) -> (StartMachine, StartAction) {
    let (m, a) = start_begin("sk-key", Bind::Loopback).unwrap();
    assert!(matches!(a, StartAction::Provision));
    step(m, StartEvent::Provisioned { token: String::from(token) })
}

#[test]
fn start_rejects_a_blank_api_key() {
    assert!(matches!(
        start_begin("", Bind::Loopback),
        Err(SupervisorError::Unconfigured(_))
    ));
    assert!(matches!(
        start_begin("   \n", Bind::Loopback),
        Err(SupervisorError::Unconfigured(_))
    ));
}

#[test]
fn healthy_probe_reuses_the_running_gateway() {
    let (m, a) = begin_provisioned("tok");
    assert!(matches!(a, StartAction::Probe));
    let (m, a) = step(m, StartEvent::Probed { healthy: true });
    assert!(matches!(a, StartAction::Succeed));
    assert_eq!(m.phase, Phase::Running);
    assert!(!m.spawned);
}

#[test]
fn unhealthy_probe_spawns_then_pairs_with_the_provisioned_token() {
    let (m, a) = begin_provisioned("tok7");
    assert!(matches!(a, StartAction::Probe));
    let (m, a) = step(m, StartEvent::Probed { healthy: false });
    match a {
        StartAction::Spawn { port, bind } => {
            assert_eq!(port, 18789);
            assert_eq!(bind, Bind::Loopback);
        },
        _ => panic!("expected a spawn"),
    }
    let (m, a) = step(m, StartEvent::Spawned { ok: true, error: String::new() });
    assert!(matches!(a, StartAction::Poll { delay_ms: POLL_INTERVAL_MS }));
    let (m, a) = step(m, StartEvent::Polled { healthy: true });
    match a {
        StartAction::Pair { token } => assert_eq!(token, "tok7"),
        _ => panic!("expected pairing"),
    }
    let (m, a) = step(m, StartEvent::Paired);
    assert!(matches!(a, StartAction::Succeed));
    assert_eq!(m.phase, Phase::Running);
    assert!(m.spawned);
}

#[test]
fn spawn_failure_fails_the_start_with_the_os_text() {
    let (m, _) = begin_provisioned("tok");
    let (m, _) = step(m, StartEvent::Probed { healthy: false });
    let (m, a) = step(
        m,
        StartEvent::Spawned { ok: false, error: String::from("port already bound") },
    );
    assert_eq!(m.phase, Phase::Failed);
    match a {
        StartAction::Fail { error: SupervisorError::SpawnFailure(t) } => {
            assert_eq!(t, "port already bound")
        },
        _ => panic!("expected a spawn failure"),
    }
}

#[test]
fn readiness_timeout_comes_after_exactly_the_poll_budget() {
    let (m, _) = begin_provisioned("tok");
    let (m, _) = step(m, StartEvent::Probed { healthy: false });
    let (mut m, first) = step(m, StartEvent::Spawned { ok: true, error: String::new() });
    assert!(matches!(first, StartAction::Poll { delay_ms: 500 }));
    let mut polls: u32 = 1;
    loop {
        let (next, a) = step(m, StartEvent::Polled { healthy: false });
        m = next;
        match a {
            StartAction::Poll { delay_ms } => {
                assert_eq!(delay_ms, POLL_INTERVAL_MS);
                polls += 1;
                assert!(polls < MAX_POLL_ATTEMPTS + 1);
            },
            StartAction::Fail { error: SupervisorError::ReadinessTimeout } => break,
            _ => panic!("expected polling or a readiness timeout"),
        }
    }
    // Exactly the budget: the twentieth poll is answered by the failure.
    assert_eq!(polls, MAX_POLL_ATTEMPTS);
    assert_eq!(m.phase, Phase::Failed);
    assert_eq!(u64::from(MAX_POLL_ATTEMPTS) * POLL_INTERVAL_MS, 10000);
}

#[test]
fn health_marker_is_a_case_insensitive_substring() {
    assert!(probe_healthy("All systems OK", ""));
    assert!(probe_healthy("", "Ok\n"));
    assert!(probe_healthy("status: ok", "noise"));
    assert!(probe_healthy("broken", ""));
    assert!(!probe_healthy("down", "down"));
    assert!(!probe_healthy("", ""));
    assert!(!probe_healthy("o", "k"));
}

#[test]
fn status_labels_match_the_host_contract() {
    assert_eq!(status_label(true), "running");
    assert_eq!(status_label(false), "stopped");
}
