use vstd::prelude::*;

use crate::errors::SupervisorError;
use crate::render::{bind_label, bind_str, gateway_doc, render_gateway_doc, Bind};
use crate::token::{generate_token, token_text};

verus! {

/// The fixed port a fresh gateway configuration is written with.
pub const DEFAULT_GATEWAY_PORT: u16 = 18789;

/// Whether serde_json parses the text as a JSON document.
pub uninterp spec fn parses_as_json(s: Seq<char>) -> bool;

/// Whether serde_json parses the text as a JSON object (not an array or a
/// scalar).
pub uninterp spec fn parses_as_object(s: Seq<char>) -> bool;

/// The string three keys deep in the parsed document, as serde_json's
/// square-bracket indexing and `as_str` read it: empty where the path is
/// absent or does not hold a string.
pub uninterp spec fn string_at3(s: Seq<char>, k1: Seq<char>, k2: Seq<char>, k3: Seq<char>) -> Seq<
    char,
>;

/// The string under one top-level key of the parsed document: empty where
/// absent or not a string.
pub uninterp spec fn string_at1(s: Seq<char>, k: Seq<char>) -> Seq<char>;

/// The parsed document with the two named top-level object keys removed,
/// re-serialized by serde_json's pretty printer.
pub uninterp spec fn without_top_keys(s: Seq<char>, k1: Seq<char>, k2: Seq<char>) -> Seq<char>;

/// For each value under the top-level key `outer` of the parsed document,
/// the string under that value's `inner` key (empty where absent), in
/// serde_json's map order; the empty sequence where the text does not parse
/// or `outer` does not hold an object.
pub uninterp spec fn string_values_at(s: Seq<char>, outer: Seq<char>, inner: Seq<char>) -> Seq<
    Seq<char>,
>;

/// Relies on serde_json::from_str, Value's square-bracket indexing and
/// Value::as_str: `None` exactly when the text does not parse; otherwise the
/// string three keys deep, or the empty string where the path is absent or
/// not a string.
#[verifier::external_body]
pub(crate) fn json_string_at3(content: &str, k1: &str, k2: &str, k3: &str) -> (r: Option<String>)
    ensures
        r is Some <==> parses_as_json(content@),
        r matches Some(t) ==> t@ == string_at3(content@, k1@, k2@, k3@),
{
    match serde_json::from_str::<serde_json::Value>(content) {
        Ok(v) => Some(v[k1][k2][k3].as_str().unwrap_or("").to_string()),
        Err(_) => None,
    }
}

/// Relies on serde_json::from_str, Value's square-bracket indexing and
/// Value::as_str: as `json_string_at3`, one key deep.
#[verifier::external_body]
pub(crate) fn json_string_at1(content: &str, k: &str) -> (r: Option<String>)
    ensures
        r is Some <==> parses_as_json(content@),
        r matches Some(t) ==> t@ == string_at1(content@, k@),
{
    match serde_json::from_str::<serde_json::Value>(content) {
        Ok(v) => Some(v[k].as_str().unwrap_or("").to_string()),
        Err(_) => None,
    }
}

/// Relies on serde_json::from_str, Value::as_object_mut, Map::remove and
/// to_string_pretty: `None` exactly when the text does not parse; otherwise
/// the document with the two top-level keys removed (a no-op where they are
/// absent or the document is not an object). Printing a parsed value yields
/// text that parses back to that value, so the result parses, and removing
/// the same keys from it again changes nothing.
#[verifier::external_body]
pub(crate) fn json_remove_top_keys(content: &str, k1: &str, k2: &str) -> (r: Option<String>)
    ensures
        r is Some <==> parses_as_json(content@),
        r matches Some(t) ==> t@ == without_top_keys(content@, k1@, k2@),
        r matches Some(t) ==> parses_as_json(t@),
        r matches Some(t) ==> without_top_keys(t@, k1@, k2@) == t@,
{
    match serde_json::from_str::<serde_json::Value>(content) {
        Ok(mut v) => {
            if let Some(obj) = v.as_object_mut() {
                obj.remove(k1);
                obj.remove(k2);
            }
            Some(serde_json::to_string_pretty(&v).unwrap_or_default())
        },
        Err(_) => None,
    }
}

/// Relies on serde_json::from_str and Value::is_object.
#[verifier::external_body]
pub(crate) fn json_is_object(content: &str) -> (r: bool)
    ensures
        r == parses_as_object(content@),
{
    serde_json::from_str::<serde_json::Value>(content).map(|v| v.is_object()).unwrap_or(false)
}

/// Relies on serde_json::from_str, Value's square-bracket indexing,
/// Value::as_object and Map::values: hands each value under the `outer`
/// object out as its `inner` string, converted one for one.
#[verifier::external_body]
pub(crate) fn json_string_values_at(content: &str, outer: &str, inner: &str) -> (r: Vec<String>)
    ensures
        r.deep_view() == string_values_at(content@, outer@, inner@),
{
    match serde_json::from_str::<serde_json::Value>(content) {
        Ok(v) => match v[outer].as_object() {
            Some(m) => m.values().map(|p| p[inner].as_str().unwrap_or("").to_string()).collect(),
            None => Vec::new(),
        },
        Err(_) => Vec::new(),
    }
}

/// The gateway bearer token carried by a configuration document.
pub open spec fn doc_token(s: Seq<char>) -> Seq<char> {
    string_at3(s, "gateway"@, "auth"@, "token"@)
}

/// The configuration document with the deprecated top-level fields (legacy
/// provider lists and version markers) removed.
pub open spec fn cleaned_doc(s: Seq<char>) -> Seq<char> {
    without_top_keys(s, "providers"@, "version"@)
}

/// The API key held by the supervisor's settings document.
pub open spec fn doc_api_key(s: Seq<char>) -> Seq<char> {
    string_at1(s, "api_key"@)
}

/// The view of an optional document content.
pub open spec fn content_view(c: Option<&String>) -> Option<Seq<char>> {
    match c {
        Some(s) => Some(s@),
        None => None,
    }
}

/// Reads the supervisor's stored API key out of the settings document: the
/// empty string where the document is absent, does not parse, or holds no
/// key — a missing key is a default, never an error.
pub fn extract_api_key(content: Option<&String>) -> (r: String)
    ensures
        content is None ==> r@ == Seq::<char>::empty(),
        content matches Some(c) ==> (!parses_as_json(c@) ==> r@ == Seq::<char>::empty()),
        content matches Some(c) ==> (parses_as_json(c@) ==> r@ == doc_api_key(c@)),
{
    match content {
        None => String::new(),
        Some(c) => match json_string_at1(c.as_str(), "api_key") {
            None => String::new(),
            Some(k) => k,
        },
    }
}

/// Reads the gateway bearer token: a missing document is `Unconfigured`, an
/// unparsable one `Corrupt`, an empty token `Unconfigured`; otherwise the
/// token.
pub fn read_gateway_token(content: Option<&String>) -> (r: Result<String, SupervisorError>)
    ensures
        content is None ==> r matches Err(SupervisorError::Unconfigured(_)),
        content matches Some(c) ==> (!parses_as_json(c@) ==> r matches Err(
            SupervisorError::Corrupt(_),
        )),
        content matches Some(c) ==> (parses_as_json(c@) && doc_token(c@).len() == 0 ==> r matches Err(
            SupervisorError::Unconfigured(_),
        )),
        content matches Some(c) ==> (parses_as_json(c@) && doc_token(c@).len() > 0 ==> (r matches Ok(
            t,
        ) && t@ == doc_token(c@))),
{
    match content {
        None => Err(
            SupervisorError::Unconfigured(String::from_str("gateway configuration document")),
        ),
        Some(c) => match json_string_at3(c.as_str(), "gateway", "auth", "token") {
            None => Err(SupervisorError::Corrupt(String::from_str("gateway configuration document"))),
            Some(t) => {
                if t.as_str().is_empty() {
                    Err(SupervisorError::Unconfigured(String::from_str("gateway token")))
                } else {
                    Ok(t)
                }
            },
        },
    }
}

/// Whether an existing gateway configuration document lets provisioning
/// reuse it: it parses, and after cleanup it carries a non-empty token.
pub open spec fn reusable_config(existing: Option<Seq<char>>) -> bool {
    match existing {
        Some(s) => parses_as_json(s) && doc_token(cleaned_doc(s)).len() > 0,
        None => false,
    }
}

/// The document that provisioning persists.
pub open spec fn provisioned_doc(
    existing: Option<Seq<char>>,
    nanos: nat,
    pid: nat,
    bind: Bind,
) -> Seq<char> {
    match existing {
        Some(s) => if parses_as_json(s) && doc_token(cleaned_doc(s)).len() > 0 {
            cleaned_doc(s)
        } else {
            gateway_doc(token_text(nanos, pid), DEFAULT_GATEWAY_PORT as nat, bind_label(bind))
        },
        None => gateway_doc(token_text(nanos, pid), DEFAULT_GATEWAY_PORT as nat, bind_label(bind)),
    }
}

/// The token that provisioning returns.
pub open spec fn provisioned_token(existing: Option<Seq<char>>, nanos: nat, pid: nat) -> Seq<
    char,
> {
    match existing {
        Some(s) => if parses_as_json(s) && doc_token(cleaned_doc(s)).len() > 0 {
            doc_token(cleaned_doc(s))
        } else {
            token_text(nanos, pid)
        },
        None => token_text(nanos, pid),
    }
}

/// Guarantees the gateway configuration document: an existing parseable
/// document is stripped of its deprecated fields and, where it then carries
/// a non-empty token, persisted as cleaned with that token reused; anything
/// else is replaced by a fresh local configuration with a newly generated
/// token. Returns the document to persist and the bearer token.
pub fn ensure_gateway_config(existing: Option<&String>, nanos: u128, pid: u32, bind: Bind) -> (r: (
    String,
    String,
))
    ensures
        r.0@ == provisioned_doc(content_view(existing), nanos as nat, pid as nat, bind),
        r.1@ == provisioned_token(content_view(existing), nanos as nat, pid as nat),
        reusable_config(content_view(existing)) ==> parses_as_json(r.0@) && cleaned_doc(r.0@)
            == r.0@ && doc_token(r.0@) == r.1@ && r.1@.len() > 0,
{
    match existing {
        None => fresh_config(nanos, pid, bind),
        Some(content) => match json_remove_top_keys(content.as_str(), "providers", "version") {
            None => fresh_config(nanos, pid, bind),
            Some(cleaned) => {
                let tok = match json_string_at3(cleaned.as_str(), "gateway", "auth", "token") {
                    Some(t) => t,
                    None => String::new(),
                };
                if tok.as_str().is_empty() {
                    fresh_config(nanos, pid, bind)
                } else {
                    (cleaned, tok)
                }
            },
        },
    }
}

fn fresh_config(nanos: u128, pid: u32, bind: Bind) -> (r: (String, String))
    ensures
        r.0@ == gateway_doc(
            token_text(nanos as nat, pid as nat),
            DEFAULT_GATEWAY_PORT as nat,
            bind_label(bind),
        ),
        r.1@ == token_text(nanos as nat, pid as nat),
{
    let t = generate_token(nanos, pid);
    let doc = render_gateway_doc(t.as_str(), DEFAULT_GATEWAY_PORT, bind_str(bind));
    (doc, t)
}

/// Law (idempotent provisioning): a document that an earlier provisioning
/// round persisted from a reusable configuration is already clean, so
/// provisioning it again returns the very same token and the very same
/// document — the cleanup never reintroduces or further mutates once clean.
pub proof fn lemma_provisioning_idempotent(
    w: Seq<char>,
    t: Seq<char>,
    nanos: nat,
    pid: nat,
    bind: Bind,
)
    requires
        parses_as_json(w),
        cleaned_doc(w) == w,
        doc_token(w) == t,
        t.len() > 0,
    ensures
        reusable_config(Some(w)),
        provisioned_doc(Some(w), nanos, pid, bind) == w,
        provisioned_token(Some(w), nanos, pid) == t,
{
}

/// Law (idempotent provisioning), demonstrated on the provisioning function
/// itself: feeding the document persisted by one round into a second round
/// yields the same token and the same document whenever the first round
/// could reuse the existing configuration, and the persisted document is
/// free of deprecated fields.
pub fn provision_twice(
    existing: &String,
    nanos1: u128,
    pid1: u32,
    nanos2: u128,
    pid2: u32,
    bind: Bind,
) -> (r: ((String, String), (String, String)))
    ensures
        reusable_config(Some(existing@)) ==> r.1.0@ == r.0.0@ && r.1.1@ == r.0.1@ && cleaned_doc(
            r.0.0@,
        ) == r.0.0@,
{
    let first = ensure_gateway_config(Some(existing), nanos1, pid1, bind);
    let second = ensure_gateway_config(Some(&first.0), nanos2, pid2, bind);
    proof {
        if reusable_config(Some(existing@)) {
            lemma_provisioning_idempotent(first.0@, first.1@, nanos2 as nat, pid2 as nat, bind);
        }
    }
    (first, second)
}

} // verus!
