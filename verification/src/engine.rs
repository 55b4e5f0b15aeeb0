//! What the key-value engine keeps for the prehandling pipeline: how many
//! snapshots are being staged, and how many the worker pool takes at once.

use crate::interfaces::FsStats;
use vstd::prelude::*;

verus! {

/// Sizes of the file system that the engine lives on.
#[derive(Clone, Copy, Debug, PartialEq, Eq, Structural)]
pub struct FsStatsExt {
    pub used: u64,
    pub capacity: u64,
    pub available: u64,
}

impl FsStatsExt {
    /// The sizes that the storage engine reported, field by field.
    pub fn from_fs_stats(stats: FsStats) -> (sizes: FsStatsExt)
        ensures
            sizes == (FsStatsExt {
                used: stats.used_size,
                capacity: stats.capacity_size,
                available: stats.avail_size,
            }),
    {
        FsStatsExt {
            used: stats.used_size,
            capacity: stats.capacity_size,
            available: stats.avail_size,
        }
    }
}

/// Switches of the fast path.
#[derive(Clone, Copy, Debug, PartialEq, Eq, Structural)]
pub struct EngineStoreConfig {
    pub enable_fast_add_peer: bool,
}

/// A value read from the engine's page storage.
#[derive(Clone, Debug, PartialEq, Eq)]
pub struct PsDbVector(pub Vec<u8>);

impl PsDbVector {
    /// Wraps the bytes of a value.
    pub fn from_raw(raw: Vec<u8>) -> (value: PsDbVector)
        ensures
            value.0 == raw,
    {
        PsDbVector(raw)
    }
}

/// The engine cannot be checkpointed; this stands where a checkpointer would.
#[derive(Clone, Copy, Debug, PartialEq, Eq, Structural)]
pub struct TiFlashCheckpointer {}

/// Backpressure state of the prehandling pipeline.
#[derive(Clone, Copy, Debug, PartialEq, Eq, Structural)]
pub struct ProxyEngineExt {
    /// Handle of the storage engine; 0 until `init`.
    pub engine_store_server_helper: isize,
    /// Size of the worker pool that stages snapshots.
    pub pool_capacity: usize,
    /// Number of snapshots submitted for staging and not yet consumed.
    pub pending_applies_count: usize,
}

impl ProxyEngineExt {
    /// The state before the storage engine is known.
    pub fn new() -> (ext: ProxyEngineExt)
        ensures
            ext == (ProxyEngineExt {
                engine_store_server_helper: 0,
                pool_capacity: 0,
                pending_applies_count: 0,
            }),
    {
        ProxyEngineExt { engine_store_server_helper: 0, pool_capacity: 0, pending_applies_count: 0 }
    }

    /// Binds the storage engine and the size of the worker pool, and starts
    /// counting from zero.
    pub fn init(&mut self, engine_store_server_helper: isize, snap_handle_pool_size: usize)
        ensures
            *final(self) == (ProxyEngineExt {
                engine_store_server_helper,
                pool_capacity: snap_handle_pool_size,
                pending_applies_count: 0,
            }),
    {
        self.engine_store_server_helper = engine_store_server_helper;
        self.pool_capacity = snap_handle_pool_size;
        self.pending_applies_count = 0;
    }

    /// Whether the caller may go on to apply a snapshot now: on a timeout
    /// with a new batch always, else only once more snapshots are being
    /// staged than the worker pool takes at once.
    pub open spec fn can_apply_snapshot_spec(self, is_timeout: bool, new_batch: bool) -> bool {
        (is_timeout && new_batch) || self.pending_applies_count > self.pool_capacity
    }

    /// Decides whether the caller may go on to apply a snapshot now.
    pub fn can_apply_snapshot(&self, is_timeout: bool, new_batch: bool, region_id: u64) -> (can:
        bool)
        ensures
            can == self.can_apply_snapshot_spec(is_timeout, new_batch),
    {
        if is_timeout && new_batch {
            true
        } else {
            self.pending_applies_count > self.pool_capacity
        }
    }
}

} // verus!
