//! The remote data-plane engine's wire shapes, as plain records: what its
//! messages carry after transport decoding and before domain translation.
//! Enumerations travel as integers; the codec functions here fix the
//! numbering, which follows each enumeration's declaration order.

use vstd::prelude::*;
use crate::ids::{EpochTime, Protocol};
use crate::nexus::{ChildState, ChildStateReason, NexusNvmePreemption, NvmeReservation};
use crate::pool::PoolStatus;
use crate::nexus::NexusStatus;
use crate::snapshot::RebuildJobState;

verus! {

/// A point in time on the wire: seconds and nanoseconds since the Unix epoch,
/// both signed, so not every value denotes a real instant.
#[derive(Clone, Copy, Debug, PartialEq, Eq, Structural)]
pub struct Timestamp {
    /// Whole seconds since the epoch; may be negative on the wire.
    pub seconds: i64,
    /// Nanoseconds within the second; meaningful below one billion.
    pub nanos: i32,
}

/// The instant a wire timestamp denotes: defined exactly when the seconds are
/// not negative and the nanoseconds are below one billion.
pub open spec fn spec_timestamp_to_epoch(t: Timestamp) -> Option<EpochTime> {
    if t.seconds >= 0 && 0 <= t.nanos && t.nanos < 1000000000 {
        Some(EpochTime { secs: t.seconds as u64, nanos: t.nanos as u32 })
    } else {
        None
    }
}

/// Converts a wire timestamp into an instant, refusing values that denote
/// none.
pub fn timestamp_to_epoch(t: &Timestamp) -> (r: Option<EpochTime>)
    ensures
        r == spec_timestamp_to_epoch(*t),
{
    if t.seconds >= 0 && t.nanos >= 0 && t.nanos < 1000000000 {
        Some(EpochTime { secs: t.seconds as u64, nanos: t.nanos as u32 })
    } else {
        None
    }
}

/// The instant an optional wire timestamp denotes, defaulting to the epoch
/// when absent or malformed.
pub open spec fn spec_epoch_or_default(t: Option<Timestamp>) -> EpochTime {
    match t {
        Some(ts) => match spec_timestamp_to_epoch(ts) {
            Some(e) => e,
            None => EpochTime { secs: 0u64, nanos: 0u32 },
        },
        None => EpochTime { secs: 0u64, nanos: 0u32 },
    }
}

/// Converts an optional wire timestamp, falling back to the epoch when it is
/// absent or denotes no instant.
pub fn epoch_or_default(t: &Option<Timestamp>) -> (r: EpochTime)
    ensures
        r == spec_epoch_or_default(*t),
{
    match t {
        Some(ts) => match timestamp_to_epoch(ts) {
            Some(e) => e,
            None => EpochTime::epoch(),
        },
        None => EpochTime::epoch(),
    }
}

/// The wire number of a share protocol.
pub open spec fn spec_protocol_i32(p: Protocol) -> i32 {
    match p {
        Protocol::Off => 0,
        Protocol::Nvmf => 1,
        Protocol::Iscsi => 2,
        Protocol::Nbd => 3,
    }
}

/// Encodes a share protocol for the wire.
pub fn protocol_to_i32(p: Protocol) -> (r: i32)
    ensures
        r == spec_protocol_i32(p),
{
    match p {
        Protocol::Off => 0,
        Protocol::Nvmf => 1,
        Protocol::Iscsi => 2,
        Protocol::Nbd => 3,
    }
}

/// The share protocol a wire number denotes, `Off` for numbers outside the
/// table.
pub open spec fn spec_protocol_from_i32(i: i32) -> Protocol {
    if i == 1 {
        Protocol::Nvmf
    } else if i == 2 {
        Protocol::Iscsi
    } else if i == 3 {
        Protocol::Nbd
    } else {
        Protocol::Off
    }
}

/// Decodes a share protocol from the wire, `Off` for numbers outside the
/// table.
pub fn protocol_from_i32(i: i32) -> (r: Protocol)
    ensures
        r == spec_protocol_from_i32(i),
{
    if i == 1 {
        Protocol::Nvmf
    } else if i == 2 {
        Protocol::Iscsi
    } else if i == 3 {
        Protocol::Nbd
    } else {
        Protocol::Off
    }
}

/// The child state a wire number denotes.
pub open spec fn spec_child_state_from_i32(i: i32) -> Option<ChildState> {
    if i == 0 {
        Some(ChildState::Unknown)
    } else if i == 1 {
        Some(ChildState::Online)
    } else if i == 2 {
        Some(ChildState::Degraded)
    } else if i == 3 {
        Some(ChildState::Faulted)
    } else {
        None
    }
}

/// Decodes a child state from the wire.
pub fn child_state_from_i32(i: i32) -> (r: Option<ChildState>)
    ensures
        r == spec_child_state_from_i32(i),
{
    if i == 0 {
        Some(ChildState::Unknown)
    } else if i == 1 {
        Some(ChildState::Online)
    } else if i == 2 {
        Some(ChildState::Degraded)
    } else if i == 3 {
        Some(ChildState::Faulted)
    } else {
        None
    }
}

/// The child state reason a wire number denotes.
pub open spec fn spec_child_reason_from_i32(i: i32) -> Option<ChildStateReason> {
    if i == 0 {
        Some(ChildStateReason::Unknown)
    } else if i == 1 {
        Some(ChildStateReason::Init)
    } else if i == 2 {
        Some(ChildStateReason::Closed)
    } else if i == 3 {
        Some(ChildStateReason::CantOpen)
    } else if i == 4 {
        Some(ChildStateReason::ConfigInvalid)
    } else if i == 5 {
        Some(ChildStateReason::RebuildFailed)
    } else if i == 6 {
        Some(ChildStateReason::IoError)
    } else if i == 7 {
        Some(ChildStateReason::ByClient)
    } else if i == 8 {
        Some(ChildStateReason::OutOfSync)
    } else if i == 9 {
        Some(ChildStateReason::NoSpace)
    } else if i == 10 {
        Some(ChildStateReason::TimedOut)
    } else if i == 11 {
        Some(ChildStateReason::AdminCommandFailed)
    } else {
        None
    }
}

/// Decodes a child state reason from the wire.
pub fn child_reason_from_i32(i: i32) -> (r: Option<ChildStateReason>)
    ensures
        r == spec_child_reason_from_i32(i),
{
    if i == 0 {
        Some(ChildStateReason::Unknown)
    } else if i == 1 {
        Some(ChildStateReason::Init)
    } else if i == 2 {
        Some(ChildStateReason::Closed)
    } else if i == 3 {
        Some(ChildStateReason::CantOpen)
    } else if i == 4 {
        Some(ChildStateReason::ConfigInvalid)
    } else if i == 5 {
        Some(ChildStateReason::RebuildFailed)
    } else if i == 6 {
        Some(ChildStateReason::IoError)
    } else if i == 7 {
        Some(ChildStateReason::ByClient)
    } else if i == 8 {
        Some(ChildStateReason::OutOfSync)
    } else if i == 9 {
        Some(ChildStateReason::NoSpace)
    } else if i == 10 {
        Some(ChildStateReason::TimedOut)
    } else if i == 11 {
        Some(ChildStateReason::AdminCommandFailed)
    } else {
        None
    }
}

/// The rebuild job state a wire number denotes.
pub open spec fn spec_rebuild_state_from_i32(i: i32) -> Option<RebuildJobState> {
    if i == 0 {
        Some(RebuildJobState::Init)
    } else if i == 1 {
        Some(RebuildJobState::Rebuilding)
    } else if i == 2 {
        Some(RebuildJobState::Stopped)
    } else if i == 3 {
        Some(RebuildJobState::Paused)
    } else if i == 4 {
        Some(RebuildJobState::Failed)
    } else if i == 5 {
        Some(RebuildJobState::Completed)
    } else {
        None
    }
}

/// Decodes a rebuild job state from the wire.
pub fn rebuild_state_from_i32(i: i32) -> (r: Option<RebuildJobState>)
    ensures
        r == spec_rebuild_state_from_i32(i),
{
    if i == 0 {
        Some(RebuildJobState::Init)
    } else if i == 1 {
        Some(RebuildJobState::Rebuilding)
    } else if i == 2 {
        Some(RebuildJobState::Stopped)
    } else if i == 3 {
        Some(RebuildJobState::Paused)
    } else if i == 4 {
        Some(RebuildJobState::Failed)
    } else if i == 5 {
        Some(RebuildJobState::Completed)
    } else {
        None
    }
}

/// The pool health a wire number denotes, `Unknown` for numbers outside the
/// table.
pub open spec fn spec_pool_status_from_i32(i: i32) -> PoolStatus {
    if i == 1 {
        PoolStatus::Online
    } else if i == 2 {
        PoolStatus::Degraded
    } else if i == 3 {
        PoolStatus::Faulted
    } else {
        PoolStatus::Unknown
    }
}

/// Decodes a pool health from the wire.
pub fn pool_status_from_i32(i: i32) -> (r: PoolStatus)
    ensures
        r == spec_pool_status_from_i32(i),
{
    if i == 1 {
        PoolStatus::Online
    } else if i == 2 {
        PoolStatus::Degraded
    } else if i == 3 {
        PoolStatus::Faulted
    } else {
        PoolStatus::Unknown
    }
}

/// The nexus health a wire number denotes, `Unknown` for numbers outside the
/// table.
pub open spec fn spec_nexus_status_from_i32(i: i32) -> NexusStatus {
    if i == 1 {
        NexusStatus::Online
    } else if i == 2 {
        NexusStatus::Degraded
    } else if i == 3 {
        NexusStatus::Faulted
    } else if i == 4 {
        NexusStatus::Shutdown
    } else {
        NexusStatus::Unknown
    }
}

/// Decodes a nexus health from the wire.
pub fn nexus_status_from_i32(i: i32) -> (r: NexusStatus)
    ensures
        r == spec_nexus_status_from_i32(i),
{
    if i == 1 {
        NexusStatus::Online
    } else if i == 2 {
        NexusStatus::Degraded
    } else if i == 3 {
        NexusStatus::Faulted
    } else if i == 4 {
        NexusStatus::Shutdown
    } else {
        NexusStatus::Unknown
    }
}

/// The wire number of an Nvme reservation type.
pub open spec fn spec_nvme_reservation_i32(r: NvmeReservation) -> i32 {
    match r {
        NvmeReservation::Reserved => 0,
        NvmeReservation::WriteExclusive => 1,
        NvmeReservation::ExclusiveAccess => 2,
        NvmeReservation::WriteExclusiveRegsOnly => 3,
        NvmeReservation::ExclusiveAccessRegsOnly => 4,
        NvmeReservation::WriteExclusiveAllRegs => 5,
        NvmeReservation::ExclusiveAccessAllRegs => 6,
    }
}

/// Encodes an Nvme reservation type for the wire.
pub fn nvme_reservation_to_i32(r: NvmeReservation) -> (v: i32)
    ensures
        v == spec_nvme_reservation_i32(r),
{
    match r {
        NvmeReservation::Reserved => 0,
        NvmeReservation::WriteExclusive => 1,
        NvmeReservation::ExclusiveAccess => 2,
        NvmeReservation::WriteExclusiveRegsOnly => 3,
        NvmeReservation::ExclusiveAccessRegsOnly => 4,
        NvmeReservation::WriteExclusiveAllRegs => 5,
        NvmeReservation::ExclusiveAccessAllRegs => 6,
    }
}

/// The wire number of a preemption policy.
pub open spec fn spec_preemption_i32(p: NexusNvmePreemption) -> i32 {
    match p {
        NexusNvmePreemption::ArgKey(_) => 0,
        NexusNvmePreemption::Holder => 1,
    }
}

/// Encodes a preemption policy for the wire.
pub fn preemption_to_i32(p: NexusNvmePreemption) -> (v: i32)
    ensures
        v == spec_preemption_i32(p),
{
    match p {
        NexusNvmePreemption::ArgKey(_) => 0,
        NexusNvmePreemption::Holder => 1,
    }
}

/// A partition as the engine's host inventory reports it.
#[derive(Debug, PartialEq, Eq)]
pub struct Partition {
    pub parent: String,
    pub number: u32,
    pub name: String,
    pub scheme: String,
    pub typeid: String,
    pub uuid: String,
}

/// A filesystem as the engine's host inventory reports it.
#[derive(Debug, PartialEq, Eq)]
pub struct Filesystem {
    pub fstype: String,
    pub label: String,
    pub uuid: String,
    pub mountpoints: Vec<String>,
}

/// A block device as the engine's host inventory reports it.
#[derive(Debug, PartialEq, Eq)]
pub struct BlockDevice {
    pub devname: String,
    pub devtype: String,
    pub devmajor: u32,
    pub devminor: u32,
    pub model: String,
    pub devpath: String,
    pub devlinks: Vec<String>,
    pub size: u64,
    pub partition: Option<Partition>,
    pub filesystem: Option<Filesystem>,
    pub available: bool,
}

/// Space usage of a replica on the wire.
#[derive(Clone, Copy, Debug, PartialEq, Eq, Structural)]
pub struct ReplicaSpaceUsage {
    pub capacity_bytes: u64,
    pub allocated_bytes: u64,
    pub cluster_size: u64,
    pub num_clusters: u64,
    pub num_allocated_clusters: u64,
}

/// A replica as the engine reports it.
#[derive(Debug, PartialEq, Eq)]
pub struct Replica {
    pub name: String,
    pub uuid: String,
    pub pooluuid: String,
    pub poolname: String,
    pub thin: bool,
    pub size: u64,
    pub share: i32,
    pub uri: String,
    pub usage: Option<ReplicaSpaceUsage>,
    pub allowed_hosts: Vec<String>,
}

/// Wire request to create a replica.
#[derive(Debug, PartialEq, Eq)]
pub struct CreateReplicaRequest {
    pub name: String,
    pub uuid: String,
    pub pooluuid: String,
    pub thin: bool,
    pub size: u64,
    pub share: i32,
    pub allowed_hosts: Vec<String>,
}

/// Wire request to share a replica.
#[derive(Debug, PartialEq, Eq)]
pub struct ShareReplicaRequest {
    pub uuid: String,
    pub share: i32,
    pub allowed_hosts: Vec<String>,
}

/// Wire request to unshare a replica.
#[derive(Debug, PartialEq, Eq)]
pub struct UnshareReplicaRequest {
    pub uuid: String,
}

/// How a destroy request names the pool of the replica.
#[derive(Debug, PartialEq, Eq)]
pub enum PoolRef {
    /// By the pool's uuid.
    PoolUuid(String),
    /// By the pool's name.
    PoolName(String),
}

/// Wire request to destroy a replica.
#[derive(Debug, PartialEq, Eq)]
pub struct DestroyReplicaRequest {
    pub uuid: String,
    pub pool: Option<PoolRef>,
}

/// Wire request to snapshot a replica.
#[derive(Debug, PartialEq, Eq)]
pub struct CreateReplicaSnapshotRequest {
    pub replica_uuid: String,
    pub snapshot_uuid: String,
    pub snapshot_name: String,
    pub entity_id: String,
    pub txn_id: String,
}

/// A replica snapshot as the engine reports it.
#[derive(Debug, PartialEq, Eq)]
pub struct ReplicaSnapshot {
    pub snapshot_uuid: String,
    pub snapshot_name: String,
    pub snapshot_size: u64,
    pub num_clones: u64,
    pub timestamp: Option<Timestamp>,
    pub replica_uuid: String,
    pub replica_size: u64,
    pub entity_id: String,
    pub txn_id: String,
    pub valid_snapshot: bool,
}

/// Wire reply to a replica snapshot request.
#[derive(Debug, PartialEq, Eq)]
pub struct CreateReplicaSnapshotResponse {
    pub snapshot: Option<ReplicaSnapshot>,
}

/// A child of a nexus as the engine reports it.
#[derive(Debug, PartialEq, Eq)]
pub struct Child {
    pub uri: String,
    pub state: i32,
    pub rebuild_progress: i32,
    pub state_reason: i32,
    pub fault_timestamp: Option<Timestamp>,
    pub has_io_log: bool,
}

/// A nexus as the engine reports it.
#[derive(Debug, PartialEq, Eq)]
pub struct Nexus {
    pub name: String,
    pub uuid: String,
    pub size: u64,
    pub state: i32,
    pub children: Vec<Child>,
    pub device_uri: String,
    pub rebuilds: u32,
    pub allowed_hosts: Vec<String>,
}

/// Wire request to create a nexus.
#[derive(Debug, PartialEq, Eq)]
pub struct CreateNexusRequest {
    pub name: String,
    pub uuid: String,
    pub size: u64,
    pub min_cntl_id: u32,
    pub max_cntl_id: u32,
    pub resv_key: u64,
    pub preempt_key: u64,
    pub children: Vec<String>,
    pub nexus_info_key: String,
    pub resv_type: Option<i32>,
    pub preempt_policy: i32,
}

/// Wire request to destroy a nexus.
#[derive(Debug, PartialEq, Eq)]
pub struct DestroyNexusRequest {
    pub uuid: String,
}

/// Wire request to publish a nexus.
#[derive(Debug, PartialEq, Eq)]
pub struct PublishNexusRequest {
    pub uuid: String,
    pub key: String,
    pub share: i32,
    pub allowed_hosts: Vec<String>,
}

/// Wire request to unpublish a nexus.
#[derive(Debug, PartialEq, Eq)]
pub struct UnpublishNexusRequest {
    pub uuid: String,
}

/// Wire request to add a child to a nexus.
#[derive(Debug, PartialEq, Eq)]
pub struct AddChildNexusRequest {
    pub uuid: String,
    pub uri: String,
    pub norebuild: bool,
}

/// Wire request to remove a child from a nexus.
#[derive(Debug, PartialEq, Eq)]
pub struct RemoveChildNexusRequest {
    pub uuid: String,
    pub uri: String,
}

/// Wire request to fault a child of a nexus.
#[derive(Debug, PartialEq, Eq)]
pub struct FaultNexusChildRequest {
    pub uuid: String,
    pub uri: String,
}

/// Wire request to act on one child of a nexus.
#[derive(Debug, PartialEq, Eq)]
pub struct ChildOperationRequest {
    pub nexus_uuid: String,
    pub uri: String,
    pub action: i32,
}

/// Wire request to shut a nexus down.
#[derive(Debug, PartialEq, Eq)]
pub struct ShutdownNexusRequest {
    pub uuid: String,
}

/// Wire request to snapshot a volume through a nexus.
#[derive(Debug, PartialEq, Eq)]
pub struct NexusCreateSnapshotRequest {
    pub nexus_uuid: String,
    pub entity_id: String,
    pub txn_id: String,
    pub snapshot_name: String,
    pub replicas: Vec<NexusCreateSnapshotReplicaDescriptor>,
}

/// One replica a wire nexus-snapshot request covers.
#[derive(Debug, PartialEq, Eq)]
pub struct NexusCreateSnapshotReplicaDescriptor {
    pub replica_uuid: String,
    pub snapshot_uuid: Option<String>,
    pub skip: bool,
}

/// Per-replica outcome of a wire nexus snapshot.
#[derive(Debug, PartialEq, Eq)]
pub struct NexusCreateSnapshotReplicaStatus {
    pub replica_uuid: String,
    pub status_code: u32,
}

/// Wire reply to a nexus snapshot request.
#[derive(Debug, PartialEq, Eq)]
pub struct NexusCreateSnapshotResponse {
    pub nexus: Option<Nexus>,
    pub snapshot_timestamp: Option<Timestamp>,
    pub replicas_done: Vec<NexusCreateSnapshotReplicaStatus>,
    pub replicas_skipped: Vec<String>,
}

/// Wire request for the rebuild history of a nexus.
#[derive(Debug, PartialEq, Eq)]
pub struct RebuildHistoryRequest {
    pub uuid: String,
}

/// One rebuild record as the engine reports it.
#[derive(Debug, PartialEq, Eq)]
pub struct RebuildHistoryRecord {
    pub child_uri: String,
    pub src_uri: String,
    pub state: i32,
    pub blocks_total: u64,
    pub blocks_recovered: u64,
    pub blocks_transferred: u64,
    pub blocks_remaining: u64,
    pub blocks_per_task: u64,
    pub block_size: u64,
    pub is_partial: bool,
    pub start_time: Option<Timestamp>,
    pub end_time: Option<Timestamp>,
}

/// Wire reply carrying the rebuild history of a nexus.
#[derive(Debug, PartialEq, Eq)]
pub struct RebuildHistoryResponse {
    pub nexus: String,
    pub records: Vec<RebuildHistoryRecord>,
}

/// A pool as the engine reports it.
#[derive(Debug, PartialEq, Eq)]
pub struct Pool {
    pub name: String,
    pub disks: Vec<String>,
    pub state: i32,
    pub capacity: u64,
    pub used: u64,
    pub committed: u64,
}

/// Wire request to create a pool.
#[derive(Debug, PartialEq, Eq)]
pub struct CreatePoolRequest {
    pub name: String,
    pub disks: Vec<String>,
    pub uuid: Option<String>,
    pub pooltype: i32,
}

/// Wire request to destroy a pool.
#[derive(Debug, PartialEq, Eq)]
pub struct DestroyPoolRequest {
    pub name: String,
    pub uuid: Option<String>,
}

/// Wire request to import a pool.
#[derive(Debug, PartialEq, Eq)]
pub struct ImportPoolRequest {
    pub name: String,
    pub uuid: Option<String>,
    pub disks: Vec<String>,
    pub pooltype: i32,
}

} // verus!
