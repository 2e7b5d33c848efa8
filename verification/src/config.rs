//! The agent's settings: where its configuration is kept, how its node is
//! called, and which matchmaker it serves.

use vstd::prelude::*;
use vstd::string::*;

use crate::primitives;
use crate::text;

verus! {

/// The configuration that is kept across restarts.
#[derive(Debug)]
pub struct AgentConfig {
    pub node_id: String,
}

/// The directory of the configuration: the one that is set, or one under the
/// home directory, or a directory of the system.
pub open spec fn config_dir_of(dir_var: Option<String>, home: Option<String>) -> Seq<char> {
    match dir_var {
        Some(dir) => dir@,
        None => match home {
            Some(h) => h@ + "/.config/tenxo"@,
            None => "/etc/tenxo"@,
        },
    }
}

/// The directory of the configuration. `dir_var` and `home` are the variables
/// `TENXO_CONFIG_DIR` and `HOME` of the environment.
pub fn config_dir(dir_var: &Option<String>, home: &Option<String>) -> (r: String)
    ensures
        r@ == config_dir_of(*dir_var, *home),
{
    match dir_var {
        Some(dir) => dir.clone(),
        None => match home {
            Some(h) => text::cat2(h.as_str(), "/.config/tenxo"),
            None => "/etc/tenxo".to_owned(),
        },
    }
}

/// The file of the configuration.
pub fn config_path(dir_var: &Option<String>, home: &Option<String>) -> (r: String)
    ensures
        r@ == config_dir_of(*dir_var, *home) + "/agent.json"@,
{
    text::cat2(config_dir(dir_var, home).as_str(), "/agent.json")
}

/// The name of the node, and where it comes from.
#[derive(Debug)]
pub enum NodeId {
    /// From the environment.
    Environment { id: String },
    /// From the configuration.
    Saved { id: String },
    /// Made now; it is to be kept.
    Fresh { id: String },
}

/// The environment names the node: the variable is there and not empty.
pub open spec fn names_node(env: Option<String>) -> bool {
    env is Some && env->0@.len() > 0
}

/// Whether the environment names the node.
pub fn is_named(env: &Option<String>) -> (r: bool)
    ensures
        r == names_node(*env),
{
    match env {
        Some(id) => !id.as_str().is_empty(),
        None => false,
    }
}

/// The name of a node that is made of a UUID.
pub fn node_id_from(uuid: &str) -> (r: String)
    ensures
        r@ == "node-"@ + uuid@,
{
    text::cat2("node-", uuid)
}

/// A fresh random name for a node.
pub fn fresh_node_id() -> (r: String)
    ensures
        exists|uuid: Seq<char>|
            #[trigger] primitives::is_uuid_v4(uuid) && r@ == "node-"@ + uuid,
{
    let uuid: String = primitives::random_uuid();
    node_id_from(uuid.as_str())
}

/// Settles how the node is called: as the environment says, or else as the
/// configuration says, or else by a fresh name.
pub fn resolve_node_id(env: &Option<String>, saved: &Option<AgentConfig>) -> (r: NodeId)
    ensures
        r is Environment == names_node(*env),
        r is Saved == (!names_node(*env) && saved is Some),
        r is Environment ==> r->Environment_id@ == env->0@,
        r is Saved ==> r->Saved_id@ == saved->0.node_id@,
        r is Fresh ==> exists|uuid: Seq<char>|
            #[trigger] primitives::is_uuid_v4(uuid) && r->Fresh_id@ == "node-"@ + uuid,
{
    if is_named(env) {
        return NodeId::Environment { id: text::text_or(env, "") };
    }
    match saved {
        Some(config) => NodeId::Saved { id: config.node_id.clone() },
        None => NodeId::Fresh { id: fresh_node_id() },
    }
}

/// The address of the matchmaker: the one that is set, or one on this machine.
pub fn matchmaker_url(setting: &Option<String>) -> (r: String)
    ensures
        r@ == text::or_text(*setting, "http://127.0.0.1:8080"@),
{
    text::text_or(setting, "http://127.0.0.1:8080")
}

/// The owner of the node: the one that is set, or none.
pub fn owner(setting: &Option<String>) -> (r: String)
    ensures
        r@ == text::or_text(*setting, ""@),
{
    text::text_or(setting, "")
}

/// The address that heartbeats are posted to.
pub fn heartbeat_url(matchmaker_url: &str) -> (r: String)
    ensures
        r@ == matchmaker_url@ + "/agent/heartbeat"@,
{
    text::cat2(matchmaker_url, "/agent/heartbeat")
}

} // verus!
