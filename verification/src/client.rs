use vstd::prelude::*;

use crate::errors::SupervisorError;
use crate::render::{invoke_params_doc, render_invoke_params};
use crate::store::{doc_token, json_is_object, parses_as_json, parses_as_object, read_gateway_token};
use crate::text::{dec_text, dec_u128, trim_str, trimmed};
use crate::token::{idempotency_key, idempotency_key_text};

verus! {

/// The fixed timeout handed to a gateway call, generous enough for a
/// model-latency round trip.
pub const CALL_TIMEOUT_MS: u64 = 130000;

/// One prepared control-channel call: the gateway method, its JSON
/// parameters, the bearer token, and the call timeout.
pub struct GatewayRequest {
    pub method: String,
    pub params: String,
    pub token: String,
    pub timeout_ms: u64,
}

/// Prepares a conversational call. The gateway token is read first: a
/// missing or token-less configuration is `Unconfigured`, an unparsable one
/// `Corrupt`, and in either case no call is dispatched. Otherwise the
/// request carries the fixed `agent` method and the envelope with the
/// message, the gateway's fixed session key, and a fresh idempotency key.
/// The agent identifier and system prompt do not enter the envelope; the
/// gateway takes both from the provisioned identity records.
pub fn prepare_invoke(
    config: Option<&String>,
    _agent_id: &str,
    message: &str,
    session_key: &str,
    _system_prompt: Option<&String>,
    millis: u128,
) -> (r: Result<GatewayRequest, SupervisorError>)
    ensures
        config is None ==> r matches Err(SupervisorError::Unconfigured(_)),
        config matches Some(c) ==> (!parses_as_json(c@) ==> r matches Err(
            SupervisorError::Corrupt(_),
        )),
        config matches Some(c) ==> (parses_as_json(c@) && doc_token(c@).len() == 0
            ==> r matches Err(SupervisorError::Unconfigured(_))),
        config matches Some(c) ==> (parses_as_json(c@) && doc_token(c@).len() > 0 ==> (r matches Ok(
            req,
        ) && req.method@ == "agent"@ && req.params@ == invoke_params_doc(
            message@,
            idempotency_key_text(session_key@, millis as nat),
        ) && req.token@ == doc_token(c@) && req.timeout_ms == CALL_TIMEOUT_MS)),
{
    let token = match read_gateway_token(config) {
        Ok(t) => t,
        Err(e) => {
            return Err(e);
        },
    };
    let ikey = idempotency_key(session_key, millis);
    let params = render_invoke_params(message, ikey.as_str());
    Ok(
        GatewayRequest {
            method: String::from_str("agent"),
            params,
            token,
            timeout_ms: CALL_TIMEOUT_MS,
        },
    )
}

/// Prepares a generic control-channel call of an arbitrary gateway method.
/// The token precondition is the same as for a conversational call; the
/// parameters must parse as a JSON object (arrays and scalars are rejected)
/// before anything is dispatched, and are then passed on verbatim.
pub fn prepare_call_method(config: Option<&String>, method: &str, params: &str) -> (r: Result<
    GatewayRequest,
    SupervisorError,
>)
    ensures
        config is None ==> r matches Err(SupervisorError::Unconfigured(_)),
        config matches Some(c) ==> (!parses_as_json(c@) ==> r matches Err(
            SupervisorError::Corrupt(_),
        )),
        config matches Some(c) ==> (parses_as_json(c@) && doc_token(c@).len() == 0
            ==> r matches Err(SupervisorError::Unconfigured(_))),
        config matches Some(c) ==> (parses_as_json(c@) && doc_token(c@).len() > 0
            && !parses_as_object(params@) ==> r matches Err(SupervisorError::Corrupt(_))),
        config matches Some(c) ==> (parses_as_json(c@) && doc_token(c@).len() > 0
            && parses_as_object(params@) ==> (r matches Ok(req) && req.method@ == method@
            && req.params@ == params@ && req.token@ == doc_token(c@) && req.timeout_ms
            == CALL_TIMEOUT_MS)),
{
    let token = match read_gateway_token(config) {
        Ok(t) => t,
        Err(e) => {
            return Err(e);
        },
    };
    if !json_is_object(params) {
        return Err(SupervisorError::Corrupt(String::from_str("method parameters must be a JSON object")));
    }
    Ok(
        GatewayRequest {
            method: String::from_str(method),
            params: String::from_str(params),
            token,
            timeout_ms: CALL_TIMEOUT_MS,
        },
    )
}

/// Classifies what a completed gateway call produced, after trimming both
/// streams: non-empty standard output is the response verbatim; otherwise
/// non-empty error output is a remote error carrying that text; otherwise
/// the call produced nothing usable.
pub fn classify_response(stdout: &str, stderr: &str) -> (r: Result<String, SupervisorError>)
    ensures
        trimmed(stdout@).len() > 0 ==> (r matches Ok(t) && t@ == trimmed(stdout@)),
        trimmed(stdout@).len() == 0 && trimmed(stderr@).len() == 0 ==> r matches Err(
            SupervisorError::EmptyResponse,
        ),
        trimmed(stdout@).len() == 0 && trimmed(stderr@).len() > 0 ==> (r matches Err(
            SupervisorError::RemoteError(t),
        ) && t@ == trimmed(stderr@)),
{
    let so = trim_str(stdout);
    if !so.as_str().is_empty() {
        return Ok(so);
    }
    let se = trim_str(stderr);
    if se.as_str().is_empty() {
        Err(SupervisorError::EmptyResponse)
    } else {
        Err(SupervisorError::RemoteError(se))
    }
}

/// The diagnostic command relay hands back standard output, or the error
/// stream where standard output is empty.
pub fn select_command_output(stdout: String, stderr: String) -> (r: String)
    ensures
        stdout@.len() > 0 ==> r@ == stdout@,
        stdout@.len() == 0 ==> r@ == stderr@,
{
    if stdout.as_str().is_empty() {
        stderr
    } else {
        stdout
    }
}

/// The gateway health query's command-line arguments.
pub fn health_args() -> (r: Vec<String>)
    ensures
        r.deep_view() == seq!["gateway"@, "health"@],
{
    let mut v: Vec<String> = Vec::new();
    v.push(String::from_str("gateway"));
    v.push(String::from_str("health"));
    proof {
        assert(v.deep_view() =~= seq!["gateway"@, "health"@]);
    }
    v
}

/// The command-line arguments that launch the gateway on a port and bind.
pub fn run_args(port: u16, bind: &str) -> (r: Vec<String>)
    ensures
        r.deep_view() == seq!["gateway"@, "run"@, "--port"@, dec_text(port as nat), "--bind"@, bind@],
{
    let mut v: Vec<String> = Vec::new();
    v.push(String::from_str("gateway"));
    v.push(String::from_str("run"));
    v.push(String::from_str("--port"));
    v.push(dec_u128(port as u128));
    v.push(String::from_str("--bind"));
    v.push(String::from_str(bind));
    proof {
        assert(v.deep_view() =~= seq![
            "gateway"@,
            "run"@,
            "--port"@,
            dec_text(port as nat),
            "--bind"@,
            bind@,
        ]);
    }
    v
}

/// The pairing handshake's command-line arguments for a provisioned token.
pub fn pair_args(token: &str) -> (r: Vec<String>)
    ensures
        r.deep_view() == seq!["gateway"@, "pair"@, "--token"@, token@],
{
    let mut v: Vec<String> = Vec::new();
    v.push(String::from_str("gateway"));
    v.push(String::from_str("pair"));
    v.push(String::from_str("--token"));
    v.push(String::from_str(token));
    proof {
        assert(v.deep_view() =~= seq!["gateway"@, "pair"@, "--token"@, token@]);
    }
    v
}

/// The command-line arguments of a prepared control-channel call.
pub fn call_args(req: &GatewayRequest) -> (r: Vec<String>)
    ensures
        r.deep_view() == seq![
            "gateway"@,
            "call"@,
            req.method@,
            "--json"@,
            "--expect-final"@,
            "--timeout"@,
            dec_text(req.timeout_ms as nat),
            "--params"@,
            req.params@,
            "--token"@,
            req.token@,
        ],
{
    let mut v: Vec<String> = Vec::new();
    v.push(String::from_str("gateway"));
    v.push(String::from_str("call"));
    v.push(String::from_str(req.method.as_str()));
    v.push(String::from_str("--json"));
    v.push(String::from_str("--expect-final"));
    v.push(String::from_str("--timeout"));
    v.push(dec_u128(req.timeout_ms as u128));
    v.push(String::from_str("--params"));
    v.push(String::from_str(req.params.as_str()));
    v.push(String::from_str("--token"));
    v.push(String::from_str(req.token.as_str()));
    proof {
        assert(v.deep_view() =~= seq![
            "gateway"@,
            "call"@,
            req.method@,
            "--json"@,
            "--expect-final"@,
            "--timeout"@,
            dec_text(req.timeout_ms as nat),
            "--params"@,
            req.params@,
            "--token"@,
            req.token@,
        ]);
    }
    v
}

/// The environment variables a spawn injects: the stored API key under both
/// the primary and the fallback provider name, since the supervisor does not
/// know which provider the key belongs to.
pub fn spawn_env(api_key: &str) -> (r: Vec<(String, String)>)
    ensures
        r@.len() == 2,
        r@[0].0@ == "ANTHROPIC_API_KEY"@ && r@[0].1@ == api_key@,
        r@[1].0@ == "OPENAI_API_KEY"@ && r@[1].1@ == api_key@,
{
    let mut v: Vec<(String, String)> = Vec::new();
    v.push((String::from_str("ANTHROPIC_API_KEY"), String::from_str(api_key)));
    v.push((String::from_str("OPENAI_API_KEY"), String::from_str(api_key)));
    v
}

} // verus!
