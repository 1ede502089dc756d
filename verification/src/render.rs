use vstd::prelude::*;

use crate::text::{dec_text, dec_u128, hex_digit, push_char};

verus! {

/// The JSON escape of one character: quote, backslash and the named control
/// characters get a two-character escape, other control characters a
/// `\u00..` escape, everything else stands for itself.
pub open spec fn esc_char(c: char) -> Seq<char> {
    if c == '"' {
        seq!['\\', '"']
    } else if c == '\\' {
        seq!['\\', '\\']
    } else if c == '\n' {
        seq!['\\', 'n']
    } else if c == '\r' {
        seq!['\\', 'r']
    } else if c == '\t' {
        seq!['\\', 't']
    } else if (c as u32) < 32 {
        seq!['\\', 'u', '0', '0', hex_digit(((c as u32) / 16) as nat), hex_digit(
            ((c as u32) % 16) as nat,
        )]
    } else {
        seq![c]
    }
}

/// The JSON escape of a whole text.
pub open spec fn escaped(s: Seq<char>) -> Seq<char>
    decreases s.len(),
{
    if s.len() == 0 {
        Seq::empty()
    } else {
        esc_char(s[0]) + escaped(s.skip(1))
    }
}

proof fn lemma_escaped_take_step(s: Seq<char>, i: int)
    requires
        0 <= i < s.len(),
    ensures
        escaped(s.take(i + 1)) == escaped(s.take(i)) + esc_char(s[i]),
    decreases i,
{
    if i == 0 {
        let t = s.take(1);
        assert(t.len() == 1);
        assert(t[0] == s[0]);
        assert(t.skip(1) =~= Seq::<char>::empty());
        assert(escaped(t) == esc_char(t[0]) + escaped(t.skip(1)));
        assert(escaped(Seq::<char>::empty()) == Seq::<char>::empty());
        assert(esc_char(s[0]) + Seq::<char>::empty() =~= esc_char(s[0]));
        assert(s.take(0) =~= Seq::<char>::empty());
        assert(escaped(s.take(0)) + esc_char(s[0]) =~= esc_char(s[0]));
    } else {
        lemma_escaped_take_step(s.skip(1), i - 1);
        assert(s.take(i + 1).skip(1) =~= s.skip(1).take(i));
        assert(s.take(i).skip(1) =~= s.skip(1).take(i - 1));
        assert(s.take(i + 1)[0] == s[0]);
        assert(s.take(i)[0] == s[0]);
        assert(s.skip(1)[i - 1] == s[i]);
        assert(escaped(s.take(i + 1)) == esc_char(s[0]) + escaped(s.skip(1).take(i)));
        assert(escaped(s.take(i)) == esc_char(s[0]) + escaped(s.skip(1).take(i - 1)));
        assert(esc_char(s[0]) + (escaped(s.skip(1).take(i - 1)) + esc_char(s[i])) =~= (esc_char(
            s[0],
        ) + escaped(s.skip(1).take(i - 1))) + esc_char(s[i]));
    }
}

fn append_escaped_char(out: &mut String, c: char)
    ensures
        final(out)@ == old(out)@ + esc_char(c),
{
    if c == '"' {
        push_char(out, '\\');
        push_char(out, '"');
    } else if c == '\\' {
        push_char(out, '\\');
        push_char(out, '\\');
    } else if c == '\n' {
        push_char(out, '\\');
        push_char(out, 'n');
    } else if c == '\r' {
        push_char(out, '\\');
        push_char(out, 'r');
    } else if c == '\t' {
        push_char(out, '\\');
        push_char(out, 't');
    } else if (c as u32) < 32 {
        push_char(out, '\\');
        push_char(out, 'u');
        push_char(out, '0');
        push_char(out, '0');
        let hi = crate::text::hex_digit_of_u32((c as u32) / 16);
        push_char(out, hi);
        let lo = crate::text::hex_digit_of_u32((c as u32) % 16);
        push_char(out, lo);
    } else {
        push_char(out, c);
    }
    proof {
        assert(out@ =~= old(out)@ + esc_char(c));
    }
}

fn append_escaped(out: &mut String, s: &str)
    ensures
        final(out)@ == old(out)@ + escaped(s@),
{
    let n = s.unicode_len();
    proof {
        assert(out@ =~= old(out)@ + escaped(s@.take(0)));
    }
    let mut i: usize = 0;
    while i < n
        invariant
            n == s@.len(),
            i <= n,
            out@ == old(out)@ + escaped(s@.take(i as int)),
        decreases n - i,
    {
        let c = s.get_char(i);
        append_escaped_char(out, c);
        proof {
            lemma_escaped_take_step(s@, i as int);
            assert((old(out)@ + escaped(s@.take(i as int))) + esc_char(c) =~= old(out)@ + (escaped(
                s@.take(i as int),
            ) + esc_char(s@[i as int])));
        }
        i += 1;
    }
    proof {
        assert(s@.take(n as int) =~= s@);
    }
}

/// The JSON text of a string value: quoted and escaped.
pub open spec fn json_string(s: Seq<char>) -> Seq<char> {
    seq!['"'] + escaped(s) + seq!['"']
}

fn append_json_string(out: &mut String, s: &str)
    ensures
        final(out)@ == old(out)@ + json_string(s@),
{
    push_char(out, '"');
    append_escaped(out, s);
    push_char(out, '"');
    proof {
        assert(out@ =~= old(out)@ + json_string(s@));
    }
}

/// The address family the gateway is told to bind: the loopback interface
/// only, or the local network.
#[derive(Clone, Copy, PartialEq, Eq, Structural, Debug)]
pub enum Bind {
    Loopback,
    Lan,
}

/// The label the gateway's command line and configuration use for a bind
/// choice.
pub open spec fn bind_label(b: Bind) -> Seq<char> {
    if b == Bind::Loopback {
        "loopback"@
    } else {
        "lan"@
    }
}

/// The bind label as a string slice.
pub fn bind_str(b: Bind) -> (r: &'static str)
    ensures
        r@ == bind_label(b),
{
    match b {
        Bind::Loopback => "loopback",
        Bind::Lan => "lan",
    }
}

/// The supervisor's own settings document: one object holding the API key.
pub open spec fn settings_doc(key: Seq<char>) -> Seq<char> {
    "{\"api_key\":"@ + json_string(key) + "}"@
}

/// Renders the supervisor settings document for the given API key.
pub fn render_settings(key: &str) -> (r: String)
    ensures
        r@ == settings_doc(key@),
{
    let mut out = String::from_str("{\"api_key\":");
    append_json_string(&mut out, key);
    out.append("}");
    proof {
        assert(out@ =~= settings_doc(key@));
    }
    out
}

/// An agent's credential record: a single `anthropic:default` profile built
/// from one API key, with the matching `lastGood` pointer and an empty
/// usage-statistics placeholder.
pub open spec fn auth_profile_doc(key: Seq<char>) -> Seq<char> {
    "{\"version\":1,\"profiles\":{\"anthropic:default\":{\"type\":\"api_key\",\"provider\":\"anthropic\",\"key\":"@
        + json_string(key)
        + "}},\"lastGood\":{\"anthropic\":\"anthropic:default\"},\"usageStats\":{}}"@
}

/// Renders the credential record for the given API key.
pub fn render_auth_profile(key: &str) -> (r: String)
    ensures
        r@ == auth_profile_doc(key@),
{
    let mut out = String::from_str(
        "{\"version\":1,\"profiles\":{\"anthropic:default\":{\"type\":\"api_key\",\"provider\":\"anthropic\",\"key\":",
    );
    append_json_string(&mut out, key);
    out.append("}},\"lastGood\":{\"anthropic\":\"anthropic:default\"},\"usageStats\":{}}");
    proof {
        assert(out@ =~= auth_profile_doc(key@));
    }
    out
}

/// An agent's identity record: display name and system prompt.
pub open spec fn agent_config_doc(name: Seq<char>, instructions: Seq<char>) -> Seq<char> {
    "{\"name\":"@ + json_string(name) + ",\"instructions\":"@ + json_string(instructions) + "}"@
}

/// Renders the identity record for the given display name and system prompt.
pub fn render_agent_config(name: &str, instructions: &str) -> (r: String)
    ensures
        r@ == agent_config_doc(name@, instructions@),
{
    let mut out = String::from_str("{\"name\":");
    append_json_string(&mut out, name);
    out.append(",\"instructions\":");
    append_json_string(&mut out, instructions);
    out.append("}");
    proof {
        assert(out@ =~= agent_config_doc(name@, instructions@));
    }
    out
}

/// A fresh gateway configuration document: local mode, the given port and
/// bind label, and the given bearer token.
pub open spec fn gateway_doc(token: Seq<char>, port: nat, bind: Seq<char>) -> Seq<char> {
    "{\"gateway\":{\"mode\":\"local\",\"port\":"@ + dec_text(port) + ",\"bind\":"@ + json_string(
        bind,
    ) + ",\"auth\":{\"token\":"@ + json_string(token) + "}}}"@
}

/// Renders a fresh gateway configuration document.
pub fn render_gateway_doc(token: &str, port: u16, bind: &str) -> (r: String)
    ensures
        r@ == gateway_doc(token@, port as nat, bind@),
{
    let mut out = String::from_str("{\"gateway\":{\"mode\":\"local\",\"port\":");
    let p = dec_u128(port as u128);
    out.append(p.as_str());
    out.append(",\"bind\":");
    append_json_string(&mut out, bind);
    out.append(",\"auth\":{\"token\":");
    append_json_string(&mut out, token);
    out.append("}}}");
    proof {
        assert(out@ =~= gateway_doc(token@, port as nat, bind@));
    }
    out
}

/// The request envelope for a conversational call: the message, the fixed
/// session key the gateway expects, the idempotency key, and no deferred
/// delivery.
pub open spec fn invoke_params_doc(message: Seq<char>, ikey: Seq<char>) -> Seq<char> {
    "{\"deliver\":false,\"idempotencyKey\":"@ + json_string(ikey) + ",\"message\":"@ + json_string(
        message,
    ) + ",\"sessionKey\":\"main\"}"@
}

/// Renders the request envelope for a conversational call.
pub fn render_invoke_params(message: &str, ikey: &str) -> (r: String)
    ensures
        r@ == invoke_params_doc(message@, ikey@),
{
    let mut out = String::from_str("{\"deliver\":false,\"idempotencyKey\":");
    append_json_string(&mut out, ikey);
    out.append(",\"message\":");
    append_json_string(&mut out, message);
    out.append(",\"sessionKey\":\"main\"}");
    proof {
        assert(out@ =~= invoke_params_doc(message@, ikey@));
    }
    out
}

} // verus!
