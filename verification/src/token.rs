use vstd::prelude::*;

use crate::text::{dec_text, dec_u128, hex_text, hex_u128};

verus! {

/// The gateway bearer token derived from a high-resolution timestamp and the
/// supervisor's process identifier; unique across restarts in a best-effort
/// way, never rotated once written.
pub open spec fn token_text(nanos: nat, pid: nat) -> Seq<char> {
    "local-"@ + hex_text(nanos) + "-"@ + hex_text(pid)
}

/// Formats the gateway bearer token for the given timestamp and process
/// identifier.
pub fn generate_token(nanos: u128, pid: u32) -> (r: String)
    ensures
        r@ == token_text(nanos as nat, pid as nat),
{
    let mut out = String::from_str("local-");
    let h = hex_u128(nanos);
    out.append(h.as_str());
    out.append("-");
    let p = hex_u128(pid as u128);
    out.append(p.as_str());
    proof {
        assert(out@ =~= token_text(nanos as nat, pid as nat));
    }
    out
}

/// The idempotency key attached to a request: the caller's session key and
/// the current timestamp in milliseconds, so a transport-level retry cannot
/// be processed twice.
pub open spec fn idempotency_key_text(session_key: Seq<char>, millis: nat) -> Seq<char> {
    session_key + "-"@ + dec_text(millis)
}

/// Formats the idempotency key for the given session key and timestamp.
pub fn idempotency_key(session_key: &str, millis: u128) -> (r: String)
    ensures
        r@ == idempotency_key_text(session_key@, millis as nat),
{
    let mut out = String::from_str(session_key);
    out.append("-");
    let m = dec_u128(millis);
    out.append(m.as_str());
    proof {
        assert(out@ =~= idempotency_key_text(session_key@, millis as nat));
    }
    out
}

} // verus!
