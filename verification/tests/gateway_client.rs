use clapp::client::{
    call_args, classify_response, health_args, pair_args, prepare_call_method, prepare_invoke,
    run_args, select_command_output, spawn_env, CALL_TIMEOUT_MS,
};
use clapp::errors::SupervisorError;

fn config_with(token: &str) -> String {
    let mut s = String::from("{\"gateway\":{\"auth\":{\"token\":\"");
    s.push_str(token);
    s.push_str("\"}}}");
    s
}

#[test]
fn invoke_without_a_configuration_never_dispatches() {
    assert!(matches!(
        prepare_invoke(None, "a1", "hi", "sess", None, 5),
        Err(SupervisorError::Unconfigured(_))
    ));
}

#[test]
fn invoke_distinguishes_corrupt_from_unconfigured() {
    let corrupt = String::from("][");
    assert!(matches!(
        prepare_invoke(Some(&corrupt), "a1", "hi", "sess", None, 5),
        Err(SupervisorError::Corrupt(_))
    ));
    let tokenless = String::from("{}");
    assert!(matches!(
        prepare_invoke(Some(&tokenless), "a1", "hi", "sess", None, 5),
        Err(SupervisorError::Unconfigured(_))
    ));
}

#[test]
fn invoke_builds_the_envelope_the_gateway_expects() {
    let config = config_with("t1");
    let req = prepare_invoke(Some(&config), "a1", "hello \"you\"", "sess", None, 99).unwrap();
    assert_eq!(req.method, "agent");
    assert_eq!(req.token, "t1");
    assert_eq!(req.timeout_ms, CALL_TIMEOUT_MS);
    assert_eq!(req.timeout_ms, 130000);
    let v: serde_json::Value = serde_json::from_str(&req.params).unwrap();
    assert_eq!(v["message"].as_str(), Some("hello \"you\""));
    assert_eq!(v["sessionKey"].as_str(), Some("main"));
    assert_eq!(v["idempotencyKey"].as_str(), Some("sess-99"));
    assert_eq!(v["deliver"].as_bool(), Some(false));
}

#[test]
fn call_method_rejects_parameters_that_are_no_object() {
    let config = config_with("t2");
    assert!(matches!(
        prepare_call_method(Some(&config), "status", "[1,2]"),
        Err(SupervisorError::Corrupt(_))
    ));
    assert!(matches!(
        prepare_call_method(Some(&config), "status", "3"),
        Err(SupervisorError::Corrupt(_))
    ));
    assert!(matches!(
        prepare_call_method(Some(&config), "status", "nope"),
        Err(SupervisorError::Corrupt(_))
    ));
    let req = prepare_call_method(Some(&config), "status", "{\"a\":1}").unwrap();
    assert_eq!(req.method, "status");
    assert_eq!(req.params, "{\"a\":1}");
    assert_eq!(req.token, "t2");
}

#[test]
fn call_method_needs_the_token_first() {
    assert!(matches!(
        prepare_call_method(None, "status", "{}"),
        Err(SupervisorError::Unconfigured(_))
    ));
}

#[test]
fn responses_are_classified_by_their_trimmed_streams() {
    assert!(matches!(classify_response("", ""), Err(SupervisorError::EmptyResponse)));
    assert!(matches!(classify_response(" \n\t", "  "), Err(SupervisorError::EmptyResponse)));
    match classify_response("", " boom \n") {
        Err(SupervisorError::RemoteError(t)) => assert_eq!(t, "boom"),
        _ => panic!("expected a remote error"),
    }
    assert_eq!(classify_response(" hi there \n", "noise").unwrap(), "hi there");
    assert_eq!(classify_response("verbatim  inside", "").unwrap(), "verbatim  inside");
}

#[test]
fn diagnostic_output_prefers_stdout() {
    assert_eq!(select_command_output(String::from("out"), String::from("err")), "out");
    assert_eq!(select_command_output(String::new(), String::from("err")), "err");
}

#[test]
fn command_lines_match_the_gateway_surface() {
    assert_eq!(health_args(), vec!["gateway", "health"]);
    assert_eq!(
        run_args(18789, "loopback"),
        vec!["gateway", "run", "--port", "18789", "--bind", "loopback"]
    );
    assert_eq!(pair_args("tok"), vec!["gateway", "pair", "--token", "tok"]);
    let config = config_with("t3");
    let req = prepare_call_method(Some(&config), "agent", "{\"m\":1}").unwrap();
    assert_eq!(
        call_args(&req),
        vec![
            "gateway",
            "call",
            "agent",
            "--json",
            "--expect-final",
            "--timeout",
            "130000",
            "--params",
            "{\"m\":1}",
            "--token",
            "t3"
        ]
    );
}

#[test]
fn spawned_gateway_gets_the_key_under_both_provider_names() {
    let env = spawn_env("sk-9");
    assert_eq!(env.len(), 2);
    assert_eq!(env[0], (String::from("ANTHROPIC_API_KEY"), String::from("sk-9")));
    assert_eq!(env[1], (String::from("OPENAI_API_KEY"), String::from("sk-9")));
}

#[test]
fn error_messages_are_human_readable() {
    let e = SupervisorError::Unconfigured(String::from("gateway token"));
    assert_eq!(e.message(), "not configured: gateway token");
    assert_eq!(
        SupervisorError::ReadinessTimeout.message(),
        "gateway did not report healthy within the readiness budget; check the openclaw installation"
    );
    assert_eq!(
        SupervisorError::RemoteError(String::from("boom")).message(),
        "gateway error: boom"
    );
    assert_eq!(SupervisorError::EmptyResponse.message(), "empty response from gateway");
    assert_eq!(
        SupervisorError::SpawnFailure(String::from("os")).message(),
        "failed to launch the gateway: os"
    );
    assert_eq!(SupervisorError::Corrupt(String::from("doc")).message(), "corrupt: doc");
}
