//! The configuration surface: which RPC endpoint serves each chain.

use vstd::prelude::*;

use crate::chain::Chain;

verus! {

/// The mapping from chain to RPC endpoint URL, loaded once at startup.
pub struct RpcConfig {
    /// One entry per configured chain; the first entry for a chain wins.
    pub chains: Vec<(Chain, String)>,
}

/// The configured RPC endpoint for a chain: the URL of the first entry for
/// it, or nothing if the chain has no entry — a startup-fatal condition for
/// a chain the service is asked to track.
pub fn get_rpc_url(chain: &Chain, rpc_config: &RpcConfig) -> (r: Option<String>)
    ensures
        match r {
            Some(url) => exists|i: int|
                0 <= i < rpc_config.chains@.len() && (#[trigger] rpc_config.chains@[i]).0 == *chain
                    && rpc_config.chains@[i].1 == url && (forall|j: int|
                    0 <= j < i ==> (#[trigger] rpc_config.chains@[j]).0 != *chain),
            None => forall|i: int|
                0 <= i < rpc_config.chains@.len() ==> (#[trigger] rpc_config.chains@[i]).0
                    != *chain,
        },
{
    let mut i: usize = 0;
    while i < rpc_config.chains.len()
        invariant
            i <= rpc_config.chains@.len(),
            forall|j: int| 0 <= j < i ==> (#[trigger] rpc_config.chains@[j]).0 != *chain,
        decreases rpc_config.chains@.len() - i,
    {
        let entry = &rpc_config.chains[i];
        if entry.0 == *chain {
            let url = entry.1.clone();
            proof {
                assert(0 <= i < rpc_config.chains@.len() && rpc_config.chains@[i as int].0
                    == *chain && rpc_config.chains@[i as int].1 == url && (forall|j: int|
                    0 <= j < i as int ==> (#[trigger] rpc_config.chains@[j]).0 != *chain));
            }
            return Some(url);
        }
        i = i + 1;
    }
    None
}

} // verus!
