//! The synchronisation settings of the connector and their defaults.
use vstd::prelude::*;
use crate::connector::pda::{program_id, spec_program_id};
use crate::runtime::{base58_string, spec_base58};

verus! {

/// Where and how far the connector synchronises.
#[derive(Clone, Debug)]
pub struct SyncConfig {
    /// The node's HTTP endpoint.
    pub rpc_url: String,
    /// The node's WebSocket endpoint.
    pub ws_url: String,
    /// The address of the bridge program, in base58.
    pub program_id: String,
    /// How many slots back catch-up reaches.
    pub max_catchup_depth: u64,
    /// Whether events older than the catch-up depth are skipped.
    pub skip_stale: bool,
}

impl Default for SyncConfig {
    /// A local validator, the bridge program, a depth of 10000 slots, stale
    /// events kept.
    fn default() -> (r: Self)
        ensures
            r.rpc_url@ == "http://127.0.0.1:8899"@,
            r.ws_url@ == "ws://127.0.0.1:8900"@,
            r.program_id@ == spec_base58(spec_program_id().bytes()),
            r.max_catchup_depth == 10_000,
            r.skip_stale == false,
    {
        let id = program_id().to_vec();
        SyncConfig {
            rpc_url: "http://127.0.0.1:8899".to_owned(),
            ws_url: "ws://127.0.0.1:8900".to_owned(),
            program_id: base58_string(&id),
            max_catchup_depth: 10_000,
            skip_stale: false,
        }
    }
}

} // verus!
