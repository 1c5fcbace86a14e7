//! Snapshot and rebuild-history domain types: what the core asks the
//! data-plane engine to snapshot, what the engine reports back, and the
//! rebuild records it keeps per nexus.

use vstd::prelude::*;
use crate::ids::EpochTime;
use crate::nexus::Nexus;

verus! {

/// Common parameters of a snapshot: its identity and the transaction that
/// asked for it.
#[derive(Debug, PartialEq, Eq)]
pub struct SnapshotParams {
    /// Uuid of the snapshot.
    pub uuid: String,
    /// Name of the snapshot.
    pub name: String,
    /// Entity (volume) the snapshot belongs to.
    pub entity: String,
    /// Transaction id of the snapshot request.
    pub txn_id: String,
}

/// One replica a nexus snapshot must cover.
#[derive(Debug, PartialEq, Eq)]
pub struct CreateNexusSnapReplDescr {
    /// Uuid of the replica.
    pub replica: String,
    /// Uuid the snapshot of this replica shall have.
    pub snap_uuid: String,
}

/// Request to snapshot a volume through one of its nexuses.
#[derive(Debug, PartialEq, Eq)]
pub struct CreateNexusSnapshot {
    /// Uuid of the nexus.
    pub nexus: String,
    /// Snapshot identity and transaction.
    pub params: SnapshotParams,
    /// The replicas the snapshot must cover.
    pub replica_desc: Vec<CreateNexusSnapReplDescr>,
}

/// Request to snapshot a single replica directly.
#[derive(Debug, PartialEq, Eq)]
pub struct CreateReplicaSnapshot {
    /// Uuid of the replica.
    pub replica: String,
    /// Snapshot identity and transaction.
    pub params: SnapshotParams,
}

/// Per-replica outcome of a nexus snapshot.
#[derive(Debug, PartialEq, Eq)]
pub struct CreateNexusSnapshotReplicaStatus {
    /// Uuid of the replica.
    pub replica_uuid: String,
    /// Status code the engine reported for this replica.
    pub status: u32,
}

/// What the engine reports after snapshotting through a nexus.
#[derive(Debug, PartialEq, Eq)]
pub struct CreateNexusSnapshotResp {
    /// The nexus state after the snapshot.
    pub nexus: Nexus,
    /// When the snapshot was taken; the epoch when the engine reported no
    /// usable instant.
    pub snap_time: EpochTime,
    /// Outcome for each replica that took part.
    pub replicas_status: Vec<CreateNexusSnapshotReplicaStatus>,
    /// Replicas the engine skipped.
    pub skipped: Vec<String>,
}

/// One replica snapshot, as the engine describes it.
#[derive(Debug, PartialEq, Eq)]
pub struct ReplicaSnapshotDescr {
    /// Uuid of the snapshot.
    pub snap_uuid: String,
    /// Name of the snapshot.
    pub snap_name: String,
    /// Size of the snapshot in bytes.
    pub snap_size: u64,
    /// Number of clones taken from the snapshot.
    pub num_clones: u64,
    /// When the snapshot was taken; the epoch when the engine reported no
    /// usable instant.
    pub snap_time: EpochTime,
    /// Uuid of the replica the snapshot was taken from.
    pub replica_uuid: String,
    /// Uuid of the pool holding the snapshot; empty until the engine reports
    /// it.
    pub pool_uuid: String,
    /// Name of the pool holding the snapshot; empty until the engine reports
    /// it.
    pub pool_id: String,
    /// Size of the source replica in bytes.
    pub replica_size: u64,
    /// Entity (volume) the snapshot belongs to.
    pub entity_id: String,
    /// Transaction id of the snapshot request.
    pub txn_id: String,
    /// Whether the snapshot is valid.
    pub valid: bool,
}

/// Request for the rebuild history of a nexus.
#[derive(Debug, PartialEq, Eq)]
pub struct GetRebuildRecord {
    /// Uuid of the nexus.
    pub nexus: String,
}

/// State of one rebuild job.
#[derive(Clone, Copy, Debug, PartialEq, Eq, Structural)]
pub enum RebuildJobState {
    Init,
    Rebuilding,
    Stopped,
    Paused,
    Failed,
    Completed,
}

/// One finished or running rebuild of a nexus child.
#[derive(Debug, PartialEq, Eq)]
pub struct RebuildRecord {
    /// Uri of the child that was rebuilt.
    pub child_uri: String,
    /// Uri of the child the data was read from.
    pub src_uri: String,
    /// State of the rebuild job.
    pub state: RebuildJobState,
    /// Total blocks to rebuild.
    pub blocks_total: u64,
    /// Blocks recovered so far.
    pub blocks_recovered: u64,
    /// Blocks actually transferred.
    pub blocks_transferred: u64,
    /// Blocks still missing.
    pub blocks_remaining: u64,
    /// Blocks handled per task.
    pub blocks_per_task: u64,
    /// Size of one block in bytes.
    pub block_size: u64,
    /// Whether the rebuild was partial.
    pub is_partial: bool,
    /// When the rebuild started.
    pub start_time: EpochTime,
    /// When the rebuild ended.
    pub end_time: EpochTime,
}

/// Rebuild history of a nexus.
#[derive(Debug, PartialEq, Eq)]
pub struct RebuildHistory {
    /// Uuid of the nexus.
    pub uuid: String,
    /// The recorded rebuilds.
    pub records: Vec<RebuildRecord>,
}

} // verus!
