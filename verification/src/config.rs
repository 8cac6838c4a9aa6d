//! Where the sidecar finds the services it talks to.

use vstd::prelude::*;

verus! {

/// The three endpoints of one deployment.
#[derive(Debug, Default, Clone)]
pub struct InclusionListConfig {
    /// Base URL of the beacon node's HTTP API.
    pub beacon_api: String,
    /// URL of the execution node's JSON-RPC endpoint.
    pub execution_api: String,
    /// Base URL of the relay.
    pub relay: String,
}

} // verus!
