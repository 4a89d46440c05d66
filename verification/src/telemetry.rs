//! The structured event that every tick pushes to the telemetry stream.

use vstd::prelude::*;

use crate::process::{Binary64, ProcessInfo};
use crate::status::{ClientInfo, NetworkStatus, PoolStatus};

verus! {

/// The event of one tick. The fields are the event's keys.
#[derive(Clone, Debug, PartialEq, Eq)]
pub struct TelemetryEvent {
    pub peers: usize,
    pub height: u64,
    pub txcount: usize,
    pub cpu: Binary64,
    pub memory: u64,
    pub finalized_height: u64,
    pub finalized_hash: Vec<u8>,
    pub bandwidth_download: u64,
    pub bandwidth_upload: u64,
    pub used_state_cache_size: usize,
    pub used_db_cache_size: usize,
    pub disk_read_per_sec: u64,
    pub disk_write_per_sec: u64,
}

/// What an event holds.
pub struct TelemetryView {
    pub peers: usize,
    pub height: u64,
    pub txcount: usize,
    pub cpu: Binary64,
    pub memory: u64,
    pub finalized_height: u64,
    pub finalized_hash: Seq<u8>,
    pub bandwidth_download: u64,
    pub bandwidth_upload: u64,
    pub used_state_cache_size: usize,
    pub used_db_cache_size: usize,
    pub disk_read_per_sec: u64,
    pub disk_write_per_sec: u64,
}

impl View for TelemetryEvent {
    type V = TelemetryView;

    open spec fn view(&self) -> TelemetryView {
        TelemetryView {
            peers: self.peers,
            height: self.height,
            txcount: self.txcount,
            cpu: self.cpu,
            memory: self.memory,
            finalized_height: self.finalized_height,
            finalized_hash: self.finalized_hash@,
            bandwidth_download: self.bandwidth_download,
            bandwidth_upload: self.bandwidth_upload,
            used_state_cache_size: self.used_state_cache_size,
            used_db_cache_size: self.used_db_cache_size,
            disk_read_per_sec: self.disk_read_per_sec,
            disk_write_per_sec: self.disk_write_per_sec,
        }
    }
}

/// The event that the snapshots and the sample of one tick give. Cache sizes
/// and disk traffic are zero where the client reports no usage.
pub open spec fn telemetry_of(
    info: ClientInfo,
    txpool_status: PoolStatus,
    net_status: NetworkStatus,
    process_info: ProcessInfo,
) -> TelemetryView {
    TelemetryView {
        peers: net_status.num_connected_peers,
        height: info.chain.best_number,
        txcount: txpool_status.ready,
        cpu: process_info.cpu_usage,
        memory: process_info.memory,
        finalized_height: info.chain.finalized_number,
        finalized_hash: info.chain.finalized_hash@,
        bandwidth_download: net_status.average_download_per_sec,
        bandwidth_upload: net_status.average_upload_per_sec,
        used_state_cache_size: match info.usage {
            Some(usage) => usage.memory.state_cache,
            None => 0,
        },
        used_db_cache_size: match info.usage {
            Some(usage) => usage.memory.database_cache,
            None => 0,
        },
        disk_read_per_sec: match info.usage {
            Some(usage) => usage.io.bytes_read,
            None => 0,
        },
        disk_write_per_sec: match info.usage {
            Some(usage) => usage.io.bytes_written,
            None => 0,
        },
    }
}

impl TelemetryEvent {
    /// Puts the event of one tick together.
    pub fn assemble(
        info: &ClientInfo,
        txpool_status: &PoolStatus,
        net_status: &NetworkStatus,
        process_info: &ProcessInfo,
    ) -> (event: TelemetryEvent)
        ensures
            event@ == telemetry_of(*info, *txpool_status, *net_status, *process_info),
    {
        let (used_state_cache_size, used_db_cache_size, disk_read_per_sec, disk_write_per_sec) =
            match &info.usage {
            Some(usage) => (
                usage.memory.state_cache,
                usage.memory.database_cache,
                usage.io.bytes_read,
                usage.io.bytes_written,
            ),
            None => (0, 0, 0, 0),
        };
        TelemetryEvent {
            peers: net_status.num_connected_peers,
            height: info.chain.best_number,
            txcount: txpool_status.ready,
            cpu: process_info.cpu_usage,
            memory: process_info.memory,
            finalized_height: info.chain.finalized_number,
            finalized_hash: info.chain.finalized_hash.clone(),
            bandwidth_download: net_status.average_download_per_sec,
            bandwidth_upload: net_status.average_upload_per_sec,
            used_state_cache_size,
            used_db_cache_size,
            disk_read_per_sec,
            disk_write_per_sec,
        }
    }
}

} // verus!
