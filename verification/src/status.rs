//! The snapshots that the node's other parts supply at each tick.

use vstd::prelude::*;

verus! {

/// Where the chain stands.
#[derive(Clone, Debug, PartialEq, Eq)]
pub struct ChainInfo {
    pub best_number: u64,
    pub best_hash: Vec<u8>,
    pub finalized_number: u64,
    pub finalized_hash: Vec<u8>,
}

/// Memory held by the state database, in bytes.
#[derive(Clone, Copy, Debug, PartialEq, Eq, Structural)]
pub struct StateDbMemoryInfo {
    pub non_canonical: usize,
    /// Absent where pruning is switched off.
    pub pruning: Option<usize>,
    pub pinned: usize,
}

/// Memory held by the client's caches, in bytes.
#[derive(Clone, Copy, Debug, PartialEq, Eq, Structural)]
pub struct MemoryInfo {
    pub state_cache: usize,
    pub database_cache: usize,
    pub state_db: StateDbMemoryInfo,
}

/// Disk traffic of the client, in bytes per second.
#[derive(Clone, Copy, Debug, PartialEq, Eq, Structural)]
pub struct IoInfo {
    pub bytes_read: u64,
    pub bytes_written: u64,
}

/// What the client reports of its use of storage.
#[derive(Clone, Copy, Debug, PartialEq, Eq, Structural)]
pub struct UsageInfo {
    pub memory: MemoryInfo,
    pub io: IoInfo,
}

/// The client's status.
#[derive(Clone, Debug, PartialEq, Eq)]
pub struct ClientInfo {
    pub chain: ChainInfo,
    /// Absent where the backend keeps no account of its usage.
    pub usage: Option<UsageInfo>,
}

/// The transaction queue's status.
#[derive(Clone, Copy, Debug, PartialEq, Eq, Structural)]
pub struct PoolStatus {
    /// Number of transactions ready to be included in a block.
    pub ready: usize,
}

/// The network's status.
#[derive(Clone, Copy, Debug, PartialEq, Eq, Structural)]
pub struct NetworkStatus {
    pub num_connected_peers: usize,
    pub average_download_per_sec: u64,
    pub average_upload_per_sec: u64,
    /// The highest block that any peer has announced, if one has.
    pub best_seen_block: Option<u64>,
}

/// One low-level runtime counter.
#[derive(Clone, Debug, PartialEq, Eq)]
pub struct Counter {
    pub key: String,
    pub value: u64,
}

impl View for Counter {
    type V = (Seq<char>, u64);

    open spec fn view(&self) -> (Seq<char>, u64) {
        (self.key@, self.value)
    }
}

/// The counters that a list of counters stands for.
pub open spec fn counters_of(counters: Seq<Counter>) -> Seq<(Seq<char>, u64)> {
    counters.map_values(|c: Counter| c@)
}

} // verus!
