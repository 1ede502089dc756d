use vstd::prelude::*;

verus! {

/// The supervisor's own settings document, below the per-user configuration
/// directory.
pub fn config_path(config_dir: &str) -> (r: String)
    ensures
        r@ == config_dir@ + "/clapp/config.json"@,
{
    let mut s = String::from_str(config_dir);
    s.append("/clapp/config.json");
    s
}

/// The directory the supervisor's settings document lives in; it must exist
/// before the document is written.
pub fn config_dir_path(config_dir: &str) -> (r: String)
    ensures
        r@ == config_dir@ + "/clapp"@,
{
    let mut s = String::from_str(config_dir);
    s.append("/clapp");
    s
}

/// The base directory where the gateway stores its data, below the user's
/// home directory.
pub fn openclaw_dir(home: &str) -> (r: String)
    ensures
        r@ == home@ + "/.openclaw"@,
{
    let mut s = String::from_str(home);
    s.append("/.openclaw");
    s
}

/// Path of the gateway's own configuration document, below the given home
/// directory.
pub fn openclaw_config_path(home: &str) -> (r: String)
    ensures
        r@ == home@ + "/.openclaw/openclaw.json"@,
{
    let mut s = openclaw_dir(home);
    s.append("/openclaw.json");
    proof {
        assert(s@ =~= home@ + "/.openclaw/openclaw.json"@) by {
            reveal_strlit("/.openclaw");
            reveal_strlit("/openclaw.json");
            reveal_strlit("/.openclaw/openclaw.json");
        }
    }
    s
}

/// Root directory that holds one subdirectory per agent identity.
pub fn openclaw_agents_root(home: &str) -> (r: String)
    ensures
        r@ == home@ + "/.openclaw/agents"@,
{
    let mut s = openclaw_dir(home);
    s.append("/agents");
    proof {
        assert(s@ =~= home@ + "/.openclaw/agents"@) by {
            reveal_strlit("/.openclaw");
            reveal_strlit("/agents");
            reveal_strlit("/.openclaw/agents");
        }
    }
    s
}

/// The directory of one agent's records, below the agents root.
pub open spec fn agent_dir_text(root: Seq<char>, id: Seq<char>) -> Seq<char> {
    root + "/"@ + id + "/agent"@
}

/// The path of one agent's credential record.
pub open spec fn auth_profile_path_text(root: Seq<char>, id: Seq<char>) -> Seq<char> {
    root + "/"@ + id + "/agent/auth-profiles.json"@
}

/// The path of one agent's identity record.
pub open spec fn agent_config_path_text(root: Seq<char>, id: Seq<char>) -> Seq<char> {
    root + "/"@ + id + "/agent/agent.json"@
}

/// The directory of one agent's records; it must exist before a record is
/// written into it.
pub fn agent_dir(root: &str, id: &str) -> (r: String)
    ensures
        r@ == agent_dir_text(root@, id@),
{
    let mut s = String::from_str(root);
    s.append("/");
    s.append(id);
    s.append("/agent");
    proof {
        assert(s@ =~= agent_dir_text(root@, id@));
    }
    s
}

/// The path of one agent's credential record.
pub fn auth_profile_path(root: &str, id: &str) -> (r: String)
    ensures
        r@ == auth_profile_path_text(root@, id@),
{
    let mut s = String::from_str(root);
    s.append("/");
    s.append(id);
    s.append("/agent/auth-profiles.json");
    proof {
        assert(s@ =~= auth_profile_path_text(root@, id@));
    }
    s
}

/// The path of one agent's identity record.
pub fn agent_config_path(root: &str, id: &str) -> (r: String)
    ensures
        r@ == agent_config_path_text(root@, id@),
{
    let mut s = String::from_str(root);
    s.append("/");
    s.append(id);
    s.append("/agent/agent.json");
    proof {
        assert(s@ =~= agent_config_path_text(root@, id@));
    }
    s
}

} // verus!
