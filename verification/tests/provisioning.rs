use clapp::errors::SupervisorError;
use clapp::paths::{
    agent_config_path, agent_dir, auth_profile_path, config_dir_path, config_path,
    openclaw_agents_root, openclaw_config_path, openclaw_dir,
};
use clapp::render::{render_settings, Bind};
use clapp::store::{ensure_gateway_config, extract_api_key, provision_twice, read_gateway_token};
use clapp::token::{generate_token, idempotency_key};

#[test]
fn generate_token_formats_timestamp_and_pid_as_hex() {
    assert_eq!(generate_token(0x1234, 0xab), "local-1234-ab");
    assert_eq!(generate_token(0, 0), "local-0-0");
    assert_eq!(generate_token(255, 16), "local-ff-10");
}

#[test]
fn idempotency_key_joins_session_and_millis() {
    assert_eq!(idempotency_key("sess", 99), "sess-99");
    assert_eq!(idempotency_key("", 1700000000000), "-1700000000000");
}

#[test]
fn paths_are_fixed_below_home_and_config_dirs() {
    assert_eq!(openclaw_dir("/home/u"), "/home/u/.openclaw");
    assert_eq!(openclaw_config_path("/home/u"), "/home/u/.openclaw/openclaw.json");
    assert_eq!(openclaw_agents_root("/home/u"), "/home/u/.openclaw/agents");
    assert_eq!(config_path("/home/u/.config"), "/home/u/.config/clapp/config.json");
    assert_eq!(config_dir_path("/home/u/.config"), "/home/u/.config/clapp");
    assert_eq!(agent_dir("/r", "a1"), "/r/a1/agent");
    assert_eq!(auth_profile_path("/r", "a1"), "/r/a1/agent/auth-profiles.json");
    assert_eq!(agent_config_path("/r", "main"), "/r/main/agent/agent.json");
}

#[test]
fn fresh_provisioning_writes_a_valid_local_config() {
    let (doc, token) = ensure_gateway_config(None, 0x1234, 0xab, Bind::Loopback);
    assert_eq!(token, "local-1234-ab");
    let v: serde_json::Value = serde_json::from_str(&doc).unwrap();
    assert_eq!(v["gateway"]["mode"].as_str(), Some("local"));
    assert_eq!(v["gateway"]["port"].as_u64(), Some(18789));
    assert_eq!(v["gateway"]["bind"].as_str(), Some("loopback"));
    assert_eq!(v["gateway"]["auth"]["token"].as_str(), Some(token.as_str()));
}

#[test]
fn provisioning_cleans_and_reuses_an_existing_token() {
    let existing = String::from(
        "{\"providers\":[\"x\"],\"version\":3,\"gateway\":{\"auth\":{\"token\":\"tok1\"},\"extra\":7}}",
    );
    let (doc, token) = ensure_gateway_config(Some(&existing), 1, 2, Bind::Loopback);
    assert_eq!(token, "tok1");
    let v: serde_json::Value = serde_json::from_str(&doc).unwrap();
    assert!(v.get("providers").is_none());
    assert!(v.get("version").is_none());
    assert_eq!(v["gateway"]["auth"]["token"].as_str(), Some("tok1"));
    assert_eq!(v["gateway"]["extra"].as_u64(), Some(7));
}

#[test]
fn provisioning_twice_returns_the_same_token() {
    let existing = String::from(
        "{\"providers\":[],\"gateway\":{\"auth\":{\"token\":\"tok2\"}}}",
    );
    let (first, second) = provision_twice(&existing, 10, 11, 12, 13, Bind::Loopback);
    assert_eq!(first.1, "tok2");
    assert_eq!(second.1, first.1);
    assert_eq!(second.0, first.0);

    // The freshly synthesized path: feeding the written document back in
    // keeps the generated token too.
    let (doc1, tok1) = ensure_gateway_config(None, 500, 7, Bind::Lan);
    let (doc2, tok2) = ensure_gateway_config(Some(&doc1), 999, 8, Bind::Lan);
    assert_eq!(tok2, tok1);
    let v: serde_json::Value = serde_json::from_str(&doc2).unwrap();
    assert_eq!(v["gateway"]["auth"]["token"].as_str(), Some(tok1.as_str()));
    assert_eq!(v["gateway"]["bind"].as_str(), Some("lan"));
}

#[test]
fn provisioning_replaces_corrupt_or_tokenless_documents() {
    let corrupt = String::from("{ not json");
    let (_, token) = ensure_gateway_config(Some(&corrupt), 0x10, 1, Bind::Loopback);
    assert_eq!(token, "local-10-1");

    let tokenless = String::from("{\"gateway\":{\"auth\":{\"token\":\"\"}}}");
    let (doc, token) = ensure_gateway_config(Some(&tokenless), 0x11, 1, Bind::Loopback);
    assert_eq!(token, "local-11-1");
    let v: serde_json::Value = serde_json::from_str(&doc).unwrap();
    assert_eq!(v["gateway"]["auth"]["token"].as_str(), Some("local-11-1"));
}

#[test]
fn settings_document_round_trips_the_api_key() {
    let doc = render_settings("sk-one");
    assert_eq!(extract_api_key(Some(&doc)), "sk-one");
    assert_eq!(extract_api_key(None), "");
    let garbage = String::from("{ nope");
    assert_eq!(extract_api_key(Some(&garbage)), "");
    let unrelated = String::from("{\"other\":1}");
    assert_eq!(extract_api_key(Some(&unrelated)), "");
}

#[test]
fn settings_document_escapes_awkward_keys() {
    let key = "a\"b\\c\nd\te\u{1}f";
    let doc = render_settings(key);
    let v: serde_json::Value = serde_json::from_str(&doc).unwrap();
    assert_eq!(v["api_key"].as_str(), Some(key));
}

#[test]
fn gateway_token_read_distinguishes_missing_corrupt_and_empty() {
    assert!(matches!(read_gateway_token(None), Err(SupervisorError::Unconfigured(_))));
    let corrupt = String::from("nope");
    assert!(matches!(
        read_gateway_token(Some(&corrupt)),
        Err(SupervisorError::Corrupt(_))
    ));
    let empty = String::from("{\"gateway\":{\"auth\":{\"token\":\"\"}}}");
    assert!(matches!(
        read_gateway_token(Some(&empty)),
        Err(SupervisorError::Unconfigured(_))
    ));
    let good = String::from("{\"gateway\":{\"auth\":{\"token\":\"t9\"}}}");
    assert_eq!(read_gateway_token(Some(&good)).unwrap(), "t9");
}
