use vstd::prelude::*;

verus! {

/// What every flow handler reads of the service's own setup. It is built once
/// at startup and only read afterwards.
pub struct ServiceConfig {
    /// The node's identity as `<pubkey>@<host>:<port>`.
    pub node_uri: String,
    /// Base URL that callback paths are appended to; it ends in `/`.
    pub callback_base: String,
}

impl ServiceConfig {
    /// A configuration for the node `node_uri` reached at `callback_base`.
    pub fn new(node_uri: String, callback_base: String) -> (r: Self)
        ensures
            r.node_uri@ == node_uri@,
            r.callback_base@ == callback_base@,
    {
        ServiceConfig { node_uri, callback_base }
    }
}

} // verus!
