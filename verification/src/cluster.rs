//! The local cluster that runs beside the virtual machine.

use vstd::prelude::*;

verus! {

/// Where a cluster runs.
#[derive(Clone, Copy, Debug, PartialEq, Eq, Structural)]
pub enum Env {
    /// A fresh cluster on this machine.
    NewLocal,
}

/// How a cluster is started.
#[derive(Debug, PartialEq, Eq)]
pub struct ClusterOptions {
    pub env: Env,
    pub fullnode_address: Option<String>,
    pub indexer_address: Option<String>,
    pub pg_address: Option<String>,
    pub faucet_address: Option<String>,
    pub epoch_duration_ms: Option<u64>,
    pub use_indexer_experimental_methods: bool,
    pub config_dir: Option<String>,
}

impl ClusterOptions {
    /// The options ask for a fresh local cluster whose full node listens on port
    /// 9000 and whose configuration lies in `/tmp/.suiconfig`, and for nothing
    /// else.
    pub open spec fn is_local(self) -> bool {
        &&& self.env == Env::NewLocal
        &&& self.fullnode_address matches Some(address) && address@ == "127.0.0.1:9000"@
        &&& self.indexer_address is None
        &&& self.pg_address is None
        &&& self.faucet_address is None
        &&& self.epoch_duration_ms is None
        &&& !self.use_indexer_experimental_methods
        &&& self.config_dir matches Some(dir) && dir@ == "/tmp/.suiconfig"@
    }

    /// Returns the options of the cluster that the virtual machine runs beside.
    pub fn local() -> (options: ClusterOptions)
        ensures
            options.is_local(),
    {
        ClusterOptions {
            env: Env::NewLocal,
            fullnode_address: Some("127.0.0.1:9000".to_owned()),
            indexer_address: None,
            pg_address: None,
            faucet_address: None,
            epoch_duration_ms: None,
            use_indexer_experimental_methods: false,
            config_dir: Some("/tmp/.suiconfig".to_owned()),
        }
    }
}

} // verus!
