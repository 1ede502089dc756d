use vstd::prelude::*;

use crate::errors::SupervisorError;
use crate::paths::{
    agent_config_path, agent_config_path_text, auth_profile_path, auth_profile_path_text,
};
use crate::render::{agent_config_doc, auth_profile_doc, render_agent_config, render_auth_profile};
use crate::store::{content_view, json_string_values_at, string_values_at};
use crate::text::{is_blank, trimmed};

verus! {

/// The per-profile key strings of a credential record.
pub open spec fn record_keys(s: Seq<char>) -> Seq<Seq<char>> {
    string_values_at(s, "profiles"@, "key"@)
}

/// A credential record is usable exactly when at least one of its profiles
/// holds a non-empty key.
pub open spec fn usable_record(s: Seq<char>) -> bool {
    exists|i: int| 0 <= i < record_keys(s).len() && record_keys(s)[i].len() > 0
}

/// An absent record is never usable.
pub open spec fn usable_content(c: Option<Seq<char>>) -> bool {
    match c {
        Some(s) => usable_record(s),
        None => false,
    }
}

/// Decides whether a credential record text is usable.
pub fn record_is_usable(content: &str) -> (r: bool)
    ensures
        r == usable_record(content@),
{
    let keys = json_string_values_at(content, "profiles", "key");
    let mut i: usize = 0;
    while i < keys.len()
        invariant
            i <= keys@.len(),
            keys.deep_view() == record_keys(content@),
            forall|j: int| 0 <= j < i ==> record_keys(content@)[j].len() == 0,
        decreases keys@.len() - i,
    {
        proof {
            assert(keys.deep_view()[i as int] == keys@[i as int]@);
        }
        if !keys[i].as_str().is_empty() {
            proof {
                assert(record_keys(content@)[i as int].len() > 0);
            }
            return true;
        }
        i += 1;
    }
    proof {
        assert(keys.deep_view().len() == keys@.len());
    }
    false
}

/// Decides whether a stored credential record is usable.
pub fn content_is_usable(content: Option<&String>) -> (r: bool)
    ensures
        r == usable_content(content_view(content)),
{
    match content {
        None => false,
        Some(c) => record_is_usable(c.as_str()),
    }
}

/// What the credential reconciler decides for a target agent, in policy
/// order: keep a usable record, else synthesize one from the supervisor's
/// stored key, else copy the first usable record of another agent in
/// discovery order, else leave everything untouched — absence of any
/// credential is not an error at this layer.
pub enum CredentialPlan {
    KeepExisting,
    WriteSupervisorKey { doc: String },
    CopyFrom { source: usize, doc: String },
    NoneAvailable,
}

/// The view of another agent's stored record.
pub open spec fn entry_content(e: (String, Option<String>)) -> Option<Seq<char>> {
    match e.1 {
        Some(s) => Some(s@),
        None => None,
    }
}

/// Whether any listed agent holds a usable credential record.
pub open spec fn any_usable(others: Seq<(String, Option<String>)>) -> bool {
    exists|i: int| 0 <= i < others.len() && usable_content(entry_content(others[i]))
}

/// Guarantees the target agent a credential where one can be had; the
/// returned plan says what to persist. `others` lists the remaining agents'
/// stored credential records in discovery order.
pub fn plan_agent_credential(
    target: Option<&String>,
    supervisor_key: &str,
    others: &Vec<(String, Option<String>)>,
) -> (r: CredentialPlan)
    ensures
        usable_content(content_view(target)) <==> r is KeepExisting,
        !usable_content(content_view(target)) && trimmed(supervisor_key@).len() > 0 ==> (r matches
            CredentialPlan::WriteSupervisorKey { doc } && doc@ == auth_profile_doc(
            supervisor_key@,
        )),
        r matches CredentialPlan::CopyFrom { source, doc } ==> 0 <= source < others@.len()
            && usable_content(entry_content(others@[source as int])) && (others@[source as int].1
            matches Some(s) && doc@ == s@) && (forall|j: int|
            0 <= j < source ==> !usable_content(entry_content(others@[j]))),
        !usable_content(content_view(target)) && trimmed(supervisor_key@).len() == 0 ==> (if any_usable(
            others@,
        ) {
            r matches CredentialPlan::CopyFrom { .. }
        } else {
            r matches CredentialPlan::NoneAvailable
        }),
{
    if content_is_usable(target) {
        return CredentialPlan::KeepExisting;
    }
    if !is_blank(supervisor_key) {
        return CredentialPlan::WriteSupervisorKey { doc: render_auth_profile(supervisor_key) };
    }
    let mut i: usize = 0;
    while i < others.len()
        invariant
            i <= others@.len(),
            !usable_content(content_view(target)),
            trimmed(supervisor_key@).len() == 0,
            forall|j: int| 0 <= j < i ==> !usable_content(entry_content(others@[j])),
        decreases others@.len() - i,
    {
        let entry = &others[i];
        match &entry.1 {
            Some(c) => {
                if record_is_usable(c.as_str()) {
                    return CredentialPlan::CopyFrom { source: i, doc: c.clone() };
                }
            },
            None => {},
        }
        i += 1;
    }
    CredentialPlan::NoneAvailable
}

/// One document write the caller must persist, creating parent directories
/// first.
pub struct DocumentWrite {
    pub path: String,
    pub content: String,
}

/// The explicit, non-reconciling counterpart of the credential policy:
/// writes fresh credential and identity records for the agent and mirrors
/// both to the reserved `"main"` identity, which the gateway treats as the
/// implicit session owner. A key that is blank after trimming is rejected
/// and nothing is planned, so nothing is written.
pub fn sync_agent_auth(
    agents_root: &str,
    agent_id: &str,
    api_key: &str,
    agent_name: &str,
    system_prompt: &str,
) -> (r: Result<Vec<DocumentWrite>, SupervisorError>)
    ensures
        trimmed(api_key@).len() == 0 <==> r is Err,
        r matches Err(e) ==> e matches SupervisorError::Unconfigured(_),
        r matches Ok(ws) ==> ws@.len() == 4 && ws@[0].path@ == auth_profile_path_text(
            agents_root@,
            agent_id@,
        ) && ws@[0].content@ == auth_profile_doc(api_key@) && ws@[1].path@
            == agent_config_path_text(agents_root@, agent_id@) && ws@[1].content@
            == agent_config_doc(agent_name@, system_prompt@) && ws@[2].path@
            == auth_profile_path_text(agents_root@, "main"@) && ws@[2].content@
            == auth_profile_doc(api_key@) && ws@[3].path@ == agent_config_path_text(
            agents_root@,
            "main"@,
        ) && ws@[3].content@ == agent_config_doc(agent_name@, system_prompt@),
{
    if is_blank(api_key) {
        return Err(SupervisorError::Unconfigured(String::from_str("API key is empty")));
    }
    let mut ws: Vec<DocumentWrite> = Vec::new();
    ws.push(
        DocumentWrite {
            path: auth_profile_path(agents_root, agent_id),
            content: render_auth_profile(api_key),
        },
    );
    ws.push(
        DocumentWrite {
            path: agent_config_path(agents_root, agent_id),
            content: render_agent_config(agent_name, system_prompt),
        },
    );
    ws.push(
        DocumentWrite {
            path: auth_profile_path(agents_root, "main"),
            content: render_auth_profile(api_key),
        },
    );
    ws.push(
        DocumentWrite {
            path: agent_config_path(agents_root, "main"),
            content: render_agent_config(agent_name, system_prompt),
        },
    );
    Ok(ws)
}

} // verus!
