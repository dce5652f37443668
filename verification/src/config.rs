//! Endpoint configuration: the two JSON-RPC endpoint URLs, read once at
//! startup from the process environment and immutable thereafter.

use vstd::prelude::*;

verus! {

/// The two endpoint URLs the benchmark runs against.
pub struct Env {
    /// URL of the remote hosted endpoint.
    pub alchemy_url: String,
    /// URL of the local node endpoint.
    pub local_node_url: String,
}

/// An environment lookup that did not find the variable yields the empty
/// string rather than an error, so a misconfigured environment surfaces later,
/// at client construction, not here.
pub fn env_value_or_empty(v: Option<String>) -> (r: String)
    ensures
        v matches Some(s) ==> r@ == s@,
        v is None ==> r@ == Seq::<char>::empty(),
{
    match v {
        Some(s) => s,
        None => String::new(),
    }
}

impl Env {
    /// Build the configuration from the two environment lookups, one for the
    /// remote endpoint URL and one for the local one. A missing variable
    /// yields the empty string.
    pub fn new(alchemy: Option<String>, local_node: Option<String>) -> (env: Env)
        ensures
            alchemy matches Some(s) ==> env.alchemy_url@ == s@,
            alchemy is None ==> env.alchemy_url@ == Seq::<char>::empty(),
            local_node matches Some(s) ==> env.local_node_url@ == s@,
            local_node is None ==> env.local_node_url@ == Seq::<char>::empty(),
    {
        Env {
            alchemy_url: env_value_or_empty(alchemy),
            local_node_url: env_value_or_empty(local_node),
        }
    }
}

} // verus!
