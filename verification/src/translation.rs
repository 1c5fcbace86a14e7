//! Pure, fallible translation between the domain model and the data-plane
//! engine's wire shapes. Every mapping pins each field of its result;
//! malformed identifiers reported by the engine are rejected with a typed
//! invalid-identifier error naming the resource kind and the offending value,
//! never silently coerced.

use vstd::prelude::*;
use crate::error::SvcError;
use crate::host;
use crate::ids::{clone_string_vec, is_uuid, validate_uuid, EpochTime, Protocol, ResourceKind};
use crate::replica::{
    host_nqn_from, is_nqn, replica_name_from_opt_uuid, spec_replica_name, CreateReplica,
    DestroyReplica, HostNqn, Replica, ReplicaSpaceUsage, ReplicaStatus, ShareReplica,
    UnshareReplica,
};
use crate::pool::{CreatePool, DestroyPool, ImportPool, PoolState};
use crate::wire;
use crate::wire::{
    epoch_or_default, pool_status_from_i32, protocol_from_i32, protocol_to_i32,
    spec_epoch_or_default, spec_pool_status_from_i32, spec_protocol_from_i32, spec_protocol_i32,
};

verus! {

/// How a domain partition mirrors a wire partition.
pub open spec fn partition_agent(w: wire::Partition, d: host::Partition) -> bool {
    &&& d.parent@ == w.parent@
    &&& d.number == w.number
    &&& d.name@ == w.name@
    &&& d.scheme@ == w.scheme@
    &&& d.typeid@ == w.typeid@
    &&& d.uuid@ == w.uuid@
}

/// The placeholder partition: every field empty.
pub open spec fn partition_default(d: host::Partition) -> bool {
    &&& d.parent@.len() == 0
    &&& d.number == 0
    &&& d.name@.len() == 0
    &&& d.scheme@.len() == 0
    &&& d.typeid@.len() == 0
    &&& d.uuid@.len() == 0
}

impl wire::Partition {
    /// The domain partition this wire partition denotes.
    pub fn to_agent(&self) -> (r: host::Partition)
        ensures
            partition_agent(*self, r),
    {
        host::Partition {
            parent: self.parent.clone(),
            number: self.number,
            name: self.name.clone(),
            scheme: self.scheme.clone(),
            typeid: self.typeid.clone(),
            uuid: self.uuid.clone(),
        }
    }
}

/// How a domain filesystem mirrors a wire filesystem: the mountpoint is the
/// first reported one, empty when the filesystem is not mounted.
pub open spec fn filesystem_agent(w: wire::Filesystem, d: host::Filesystem) -> bool {
    &&& d.fstype@ == w.fstype@
    &&& d.label@ == w.label@
    &&& d.uuid@ == w.uuid@
    &&& d.mountpoint@ == (if w.mountpoints@.len() > 0 {
        w.mountpoints@[0]@
    } else {
        Seq::<char>::empty()
    })
}

/// The placeholder filesystem: every field empty.
pub open spec fn filesystem_default(d: host::Filesystem) -> bool {
    &&& d.fstype@.len() == 0
    &&& d.label@.len() == 0
    &&& d.uuid@.len() == 0
    &&& d.mountpoint@.len() == 0
}

impl wire::Filesystem {
    /// The domain filesystem this wire filesystem denotes.
    pub fn to_agent(&self) -> (r: host::Filesystem)
        ensures
            filesystem_agent(*self, r),
    {
        let mountpoint = if self.mountpoints.len() > 0 {
            self.mountpoints[0].clone()
        } else {
            String::new()
        };
        host::Filesystem {
            fstype: self.fstype.clone(),
            label: self.label.clone(),
            uuid: self.uuid.clone(),
            mountpoint,
        }
    }
}

/// How a domain block device mirrors a wire block device: an absent partition
/// or filesystem becomes the empty placeholder.
pub open spec fn block_device_agent(w: wire::BlockDevice, d: host::BlockDevice) -> bool {
    &&& d.devname@ == w.devname@
    &&& d.devtype@ == w.devtype@
    &&& d.devmajor == w.devmajor
    &&& d.devminor == w.devminor
    &&& d.model@ == w.model@
    &&& d.devpath@ == w.devpath@
    &&& d.devlinks@ == w.devlinks@
    &&& d.size == w.size
    &&& (match w.partition {
        Some(p) => partition_agent(p, d.partition),
        None => partition_default(d.partition),
    })
    &&& (match w.filesystem {
        Some(f) => filesystem_agent(f, d.filesystem),
        None => filesystem_default(d.filesystem),
    })
    &&& d.available == w.available
}

impl wire::BlockDevice {
    /// The domain block device this wire block device denotes.
    pub fn to_agent(&self) -> (r: host::BlockDevice)
        ensures
            block_device_agent(*self, r),
    {
        host::BlockDevice {
            devname: self.devname.clone(),
            devtype: self.devtype.clone(),
            devmajor: self.devmajor,
            devminor: self.devminor,
            model: self.model.clone(),
            devpath: self.devpath.clone(),
            devlinks: clone_string_vec(&self.devlinks),
            size: self.size,
            partition: (match &self.partition {
                Some(partition) => partition.to_agent(),
                None => Default::default(),
            }),
            filesystem: (match &self.filesystem {
                Some(filesystem) => filesystem.to_agent(),
                None => Default::default(),
            }),
            available: self.available,
        }
    }
}

/// How a domain space-usage record mirrors a wire one.
pub open spec fn space_usage_agent(w: wire::ReplicaSpaceUsage, d: ReplicaSpaceUsage) -> bool {
    &&& d.capacity_bytes == w.capacity_bytes
    &&& d.allocated_bytes == w.allocated_bytes
    &&& d.cluster_size == w.cluster_size
    &&& d.clusters == w.num_clusters
    &&& d.allocated_clusters == w.num_allocated_clusters
}

impl wire::ReplicaSpaceUsage {
    /// The domain space-usage record this wire record denotes.
    pub fn to_agent(&self) -> (r: ReplicaSpaceUsage)
        ensures
            space_usage_agent(*self, r),
    {
        ReplicaSpaceUsage {
            capacity_bytes: self.capacity_bytes,
            allocated_bytes: self.allocated_bytes,
            cluster_size: self.cluster_size,
            clusters: self.num_clusters,
            allocated_clusters: self.num_allocated_clusters,
        }
    }
}

/// How a classified host name mirrors the raw string the engine reported.
pub open spec fn nqn_agent(s: Seq<char>, d: HostNqn) -> bool {
    if is_nqn(s) {
        d matches HostNqn::Nqn(n) && n@ == s
    } else {
        d matches HostNqn::Invalid { nqn } && nqn@ == s
    }
}

/// Classifies each host name the engine reported; names that do not parse are
/// carried as `Invalid` rather than dropped.
fn host_nqns_from(hosts: &Vec<String>) -> (r: Vec<HostNqn>)
    ensures
        r@.len() == hosts@.len(),
        forall|i: int| 0 <= i < hosts@.len() ==> nqn_agent(hosts@[i]@, #[trigger] r@[i]),
{
    let mut r: Vec<HostNqn> = Vec::new();
    let n = hosts.len();
    let mut i: usize = 0;
    while i < n
        invariant
            i <= n,
            n == hosts@.len(),
            r@.len() == i,
            forall|j: int| 0 <= j < i ==> nqn_agent(hosts@[j]@, #[trigger] r@[j]),
        decreases n - i,
    {
        r.push(host_nqn_from(hosts[i].clone()));
        i += 1;
    }
    r
}

/// How a domain replica on node `node` mirrors a wire replica: identifiers
/// are validated uuids and the share protocol is decoded from its wire
/// number; the status is reported `Online`.
pub open spec fn replica_agent_on(w: wire::Replica, d: Replica, node: Seq<char>) -> bool {
    &&& d.node@ == node
    &&& d.name@ == w.name@
    &&& d.uuid@ == w.uuid@
    &&& d.pool_id@ == w.poolname@
    &&& (d.pool_uuid matches Some(u) && u@ == w.pooluuid@)
    &&& d.thin == w.thin
    &&& d.size == w.size
    &&& (match w.usage {
        Some(u) => d.space matches Some(s) && space_usage_agent(u, s),
        None => d.space is None,
    })
    &&& d.share == spec_protocol_from_i32(w.share)
    &&& d.uri@ == w.uri@
    &&& d.status == ReplicaStatus::Online
    &&& d.allowed_hosts@.len() == w.allowed_hosts@.len()
    &&& forall|i: int|
        0 <= i < w.allowed_hosts@.len() ==> nqn_agent(
            w.allowed_hosts@[i]@,
            #[trigger] d.allowed_hosts@[i],
        )
}

/// [`replica_agent_on`] with the node not yet filled in.
pub open spec fn replica_agent(w: wire::Replica, d: Replica) -> bool {
    replica_agent_on(w, d, Seq::<char>::empty())
}

impl wire::Replica {
    /// The domain replica this wire replica denotes. The replica uuid and the
    /// pool uuid must be well-formed uuids; a malformed one is rejected with
    /// `InvalidUuid` carrying the offending value, the replica uuid checked
    /// first.
    pub fn try_to_agent(&self) -> (r: Result<Replica, SvcError>)
        ensures
            is_uuid(self.uuid@) && is_uuid(self.pooluuid@) <==> r is Ok,
            (match r {
                Ok(d) => replica_agent(*self, d),
                Err(e) => {
                    &&& e matches SvcError::InvalidUuid { kind, uuid }
                    &&& kind == ResourceKind::Replica
                    &&& uuid@ == (if !is_uuid(self.uuid@) {
                        self.uuid@
                    } else {
                        self.pooluuid@
                    })
                },
            }),
    {
        if !validate_uuid(self.uuid.as_str()) {
            return Err(
                SvcError::InvalidUuid { uuid: self.uuid.clone(), kind: ResourceKind::Replica },
            );
        }
        if !validate_uuid(self.pooluuid.as_str()) {
            return Err(
                SvcError::InvalidUuid { uuid: self.pooluuid.clone(), kind: ResourceKind::Replica },
            );
        }
        Ok(
            Replica {
                node: String::new(),
                name: self.name.clone(),
                uuid: self.uuid.clone(),
                pool_id: self.poolname.clone(),
                pool_uuid: Some(self.pooluuid.clone()),
                thin: self.thin,
                size: self.size,
                space: (match &self.usage {
                    Some(u) => Some(u.to_agent()),
                    None => None,
                }),
                share: protocol_from_i32(self.share),
                uri: self.uri.clone(),
                status: ReplicaStatus::Online,
                allowed_hosts: host_nqns_from(&self.allowed_hosts),
            },
        )
    }
}

/// Converts a wire replica reported by node `id` into a domain replica: as
/// [`wire::Replica::try_to_agent`], with the node filled in.
pub fn rpc_replica_to_agent(rpc_replica: &wire::Replica, id: &String) -> (r: Result<
    Replica,
    SvcError,
>)
    ensures
        is_uuid(rpc_replica.uuid@) && is_uuid(rpc_replica.pooluuid@) <==> r is Ok,
        (match r {
            Ok(d) => replica_agent_on(*rpc_replica, d, id@),
            Err(e) => {
                &&& e matches SvcError::InvalidUuid { kind, uuid }
                &&& kind == ResourceKind::Replica
                &&& uuid@ == (if !is_uuid(rpc_replica.uuid@) {
                    rpc_replica.uuid@
                } else {
                    rpc_replica.pooluuid@
                })
            },
        }),
{
    match rpc_replica.try_to_agent() {
        Ok(mut replica) => {
            proof {
                assert(replica.node@ =~= Seq::<char>::empty());
            }
            replica.node = id.clone();
            Ok(replica)
        },
        Err(e) => Err(e),
    }
}

impl CreateReplica {
    /// The wire request this creation request denotes: the wire name defaults
    /// to the uuid, and the wire pool reference is the pool uuid when one is
    /// known, the pool name otherwise.
    pub fn to_rpc(&self) -> (r: wire::CreateReplicaRequest)
        ensures
            r.name@ == spec_replica_name(self.name, self.uuid@),
            r.uuid@ == self.uuid@,
            r.pooluuid@ == (match self.pool_uuid {
                Some(u) => u@,
                None => self.pool_id@,
            }),
            r.thin == self.thin,
            r.size == self.size,
            r.share == spec_protocol_i32(self.share),
            r.allowed_hosts@ == self.allowed_hosts@,
    {
        wire::CreateReplicaRequest {
            name: replica_name_from_opt_uuid(self.name.as_ref(), &self.uuid),
            uuid: self.uuid.clone(),
            pooluuid: (match &self.pool_uuid {
                Some(uuid) => uuid.clone(),
                None => self.pool_id.clone(),
            }),
            thin: self.thin,
            size: self.size,
            share: protocol_to_i32(self.share),
            allowed_hosts: clone_string_vec(&self.allowed_hosts),
        }
    }
}

impl ShareReplica {
    /// The wire request this share request denotes; the wire addresses the
    /// replica by name, which defaults to the uuid.
    pub fn to_rpc(&self) -> (r: wire::ShareReplicaRequest)
        ensures
            r.uuid@ == spec_replica_name(self.name, self.uuid@),
            r.share == spec_protocol_i32(Protocol::spec_from_replica_share(self.protocol)),
            r.allowed_hosts@ == self.allowed_hosts@,
    {
        wire::ShareReplicaRequest {
            uuid: replica_name_from_opt_uuid(self.name.as_ref(), &self.uuid),
            share: protocol_to_i32(Protocol::from_replica_share(self.protocol)),
            allowed_hosts: clone_string_vec(&self.allowed_hosts),
        }
    }
}

impl UnshareReplica {
    /// The wire request this unshare request denotes; the wire addresses the
    /// replica by name, which defaults to the uuid.
    pub fn to_rpc(&self) -> (r: wire::UnshareReplicaRequest)
        ensures
            r.uuid@ == spec_replica_name(self.name, self.uuid@),
    {
        wire::UnshareReplicaRequest {
            uuid: replica_name_from_opt_uuid(self.name.as_ref(), &self.uuid),
        }
    }
}

impl DestroyReplica {
    /// The wire request this destroy request denotes: the pool is referenced
    /// by its uuid when one is known, by its name otherwise, and the replica
    /// by its name, which defaults to the uuid.
    pub fn to_rpc(&self) -> (r: wire::DestroyReplicaRequest)
        ensures
            r.uuid@ == spec_replica_name(self.name, self.uuid@),
            (match self.pool_uuid {
                Some(u) => r.pool matches Some(p) && p matches wire::PoolRef::PoolUuid(s) && s@
                    == u@,
                None => r.pool matches Some(p) && p matches wire::PoolRef::PoolName(s) && s@
                    == self.pool_id@,
            }),
    {
        let pool_ref = match &self.pool_uuid {
            Some(uuid) => wire::PoolRef::PoolUuid(uuid.clone()),
            None => wire::PoolRef::PoolName(self.pool_id.clone()),
        };
        wire::DestroyReplicaRequest {
            uuid: replica_name_from_opt_uuid(self.name.as_ref(), &self.uuid),
            pool: Some(pool_ref),
        }
    }
}

/// How a domain pool state on node `node` mirrors a wire pool: the committed
/// figure is suppressed when the engine reports usage without commitment,
/// which marks an engine that does not track it.
pub open spec fn pool_agent_on(w: wire::Pool, d: PoolState, node: Seq<char>) -> bool {
    &&& d.node@ == node
    &&& d.id@ == w.name@
    &&& d.disks@ == w.disks@
    &&& d.capacity == w.capacity
    &&& d.used == w.used
    &&& d.status == spec_pool_status_from_i32(w.state)
    &&& d.committed == (if w.used > 0 && w.committed == 0 {
        None::<u64>
    } else {
        Some(w.committed)
    })
}

/// [`pool_agent_on`] with the node not yet filled in.
pub open spec fn pool_agent(w: wire::Pool, d: PoolState) -> bool {
    pool_agent_on(w, d, Seq::<char>::empty())
}

impl wire::Pool {
    /// The domain pool state this wire pool denotes.
    pub fn to_agent(&self) -> (r: PoolState)
        ensures
            pool_agent(*self, r),
    {
        PoolState {
            node: String::new(),
            id: self.name.clone(),
            disks: clone_string_vec(&self.disks),
            capacity: self.capacity,
            used: self.used,
            status: pool_status_from_i32(self.state),
            committed: (if self.used > 0 && self.committed == 0 {
                None
            } else {
                Some(self.committed)
            }),
        }
    }
}

/// Converts a wire pool reported by node `id` into a domain pool state: as
/// [`wire::Pool::to_agent`], with the node filled in.
pub fn rpc_pool_to_agent(rpc_pool: &wire::Pool, id: &String) -> (r: PoolState)
    ensures
        pool_agent_on(*rpc_pool, r, id@),
{
    let mut pool = rpc_pool.to_agent();
    proof {
        assert(pool.node@ =~= Seq::<char>::empty());
    }
    pool.node = id.clone();
    pool
}

/// The wire number of the one pool type the engine supports, a logical volume
/// store.
pub open spec fn spec_pool_type_lvs() -> i32 {
    0
}

impl CreatePool {
    /// The wire request this creation request denotes: an lvs pool with no
    /// uuid assigned by the control plane.
    pub fn to_rpc(&self) -> (r: wire::CreatePoolRequest)
        ensures
            r.name@ == self.id@,
            r.disks@ == self.disks@,
            r.uuid is None,
            r.pooltype == spec_pool_type_lvs(),
    {
        wire::CreatePoolRequest {
            name: self.id.clone(),
            disks: clone_string_vec(&self.disks),
            uuid: None,
            pooltype: 0,
        }
    }
}

impl DestroyPool {
    /// The wire request this destroy request denotes.
    pub fn to_rpc(&self) -> (r: wire::DestroyPoolRequest)
        ensures
            r.name@ == self.id@,
            r.uuid is None,
    {
        wire::DestroyPoolRequest { name: self.id.clone(), uuid: None }
    }
}

impl ImportPool {
    /// The wire request this import request denotes: an lvs pool addressed by
    /// name.
    pub fn to_rpc(&self) -> (r: wire::ImportPoolRequest)
        ensures
            r.name@ == self.id@,
            r.uuid is None,
            r.disks@ == self.disks@,
            r.pooltype == spec_pool_type_lvs(),
    {
        wire::ImportPoolRequest {
            name: self.id.clone(),
            uuid: None,
            disks: clone_string_vec(&self.disks),
            pooltype: 0,
        }
    }
}

/// A plausible child uri: somewhere in it stands the `://` separator of a
/// scheme.
pub open spec fn is_child_uri(s: Seq<char>) -> bool {
    exists|i: int|
        0 <= i && i + 3 <= s.len() && #[trigger] s[i] == ':' && s[i + 1] == '/' && s[i + 2] == '/'
}

/// Checks that a string is a plausible child uri.
pub fn validate_child_uri(s: &str) -> (r: bool)
    ensures
        r == is_child_uri(s@),
{
    let n = s.unicode_len();
    if n < 3 {
        return false;
    }
    let mut i: usize = 0;
    while i <= n - 3
        invariant
            n == s@.len(),
            n >= 3,
            i <= n - 2,
            forall|j: int|
                0 <= j < i ==> !(#[trigger] s@[j] == ':' && s@[j + 1] == '/' && s@[j + 2] == '/'),
        decreases n - i,
    {
        if s.get_char(i) == ':' && s.get_char(i + 1) == '/' && s.get_char(i + 2) == '/' {
            return true;
        }
        i += 1;
    }
    false
}

/// The protocol a device uri names by its scheme; `Off` when the nexus is not
/// served under a recognised scheme.
pub open spec fn spec_protocol_of_uri(s: Seq<char>) -> Protocol {
    if crate::ids::has_prefix(s, "nvmf://"@) {
        Protocol::Nvmf
    } else if crate::ids::has_prefix(s, "iscsi://"@) {
        Protocol::Iscsi
    } else if crate::ids::has_prefix(s, "nbd://"@) {
        Protocol::Nbd
    } else {
        Protocol::Off
    }
}

/// Reads the share protocol of a nexus off its device uri.
pub fn protocol_of_uri(s: &str) -> (r: Protocol)
    ensures
        r == spec_protocol_of_uri(s@),
{
    if crate::ids::str_has_prefix(s, "nvmf://") {
        Protocol::Nvmf
    } else if crate::ids::str_has_prefix(s, "iscsi://") {
        Protocol::Iscsi
    } else if crate::ids::str_has_prefix(s, "nbd://") {
        Protocol::Nbd
    } else {
        Protocol::Off
    }
}

/// How a domain child mirrors a wire child: states and reasons outside the
/// wire tables fall back to `Unknown`, a rebuild progress that does not fit a
/// percentage byte is dropped, and a fault instant is kept only when the
/// timestamp denotes one.
pub open spec fn child_agent(w: wire::Child, d: crate::nexus::Child) -> bool {
    &&& d.uri@ == w.uri@
    &&& d.state == (match wire::spec_child_state_from_i32(w.state) {
        Some(s) => s,
        None => crate::nexus::ChildState::Unknown,
    })
    &&& d.rebuild_progress == (if 0 <= w.rebuild_progress && w.rebuild_progress <= 255 {
        Some(w.rebuild_progress as u8)
    } else {
        None::<u8>
    })
    &&& d.state_reason == (match wire::spec_child_reason_from_i32(w.state_reason) {
        Some(s) => s,
        None => crate::nexus::ChildStateReason::Unknown,
    })
    &&& d.faulted_at == (match w.fault_timestamp {
        Some(ts) => wire::spec_timestamp_to_epoch(ts),
        None => None::<EpochTime>,
    })
    &&& d.has_io_log == Some(w.has_io_log)
}

impl wire::Child {
    /// The domain child this wire child denotes.
    pub fn to_agent(&self) -> (r: crate::nexus::Child)
        ensures
            child_agent(*self, r),
    {
        crate::nexus::Child {
            uri: self.uri.clone(),
            state: (match wire::child_state_from_i32(self.state) {
                Some(s) => s,
                None => crate::nexus::ChildState::Unknown,
            }),
            rebuild_progress: (if self.rebuild_progress >= 0 && self.rebuild_progress <= 255 {
                Some(self.rebuild_progress as u8)
            } else {
                None
            }),
            state_reason: (match wire::child_reason_from_i32(self.state_reason) {
                Some(s) => s,
                None => crate::nexus::ChildStateReason::Unknown,
            }),
            faulted_at: (match &self.fault_timestamp {
                Some(ts) => wire::timestamp_to_epoch(ts),
                None => None,
            }),
            has_io_log: Some(self.has_io_log),
        }
    }
}

/// How a domain nexus on node `node` mirrors a wire nexus: the uuid is a
/// validated uuid, each child is translated, and the share protocol is read
/// off the device uri's scheme.
pub open spec fn nexus_agent_on(w: wire::Nexus, d: crate::nexus::Nexus, node: Seq<char>) -> bool {
    &&& d.node@ == node
    &&& d.name@ == w.name@
    &&& d.uuid@ == w.uuid@
    &&& d.size == w.size
    &&& d.status == wire::spec_nexus_status_from_i32(w.state)
    &&& d.children@.len() == w.children@.len()
    &&& forall|i: int|
        0 <= i < w.children@.len() ==> child_agent(w.children@[i], #[trigger] d.children@[i])
    &&& d.device_uri@ == w.device_uri@
    &&& d.rebuilds == w.rebuilds
    &&& d.share == spec_protocol_of_uri(w.device_uri@)
    &&& d.allowed_hosts@.len() == w.allowed_hosts@.len()
    &&& forall|i: int|
        0 <= i < w.allowed_hosts@.len() ==> nqn_agent(
            w.allowed_hosts@[i]@,
            #[trigger] d.allowed_hosts@[i],
        )
}

/// [`nexus_agent_on`] with the node not yet filled in.
pub open spec fn nexus_agent(w: wire::Nexus, d: crate::nexus::Nexus) -> bool {
    nexus_agent_on(w, d, Seq::<char>::empty())
}

impl wire::Nexus {
    /// The domain nexus this wire nexus denotes. The nexus uuid must be a
    /// well-formed uuid; a malformed one is rejected with `InvalidUuid`
    /// carrying the offending value.
    pub fn try_to_agent(&self) -> (r: Result<crate::nexus::Nexus, SvcError>)
        ensures
            is_uuid(self.uuid@) <==> r is Ok,
            (match r {
                Ok(d) => nexus_agent(*self, d),
                Err(e) => {
                    &&& e matches SvcError::InvalidUuid { kind, uuid }
                    &&& kind == ResourceKind::Nexus
                    &&& uuid@ == self.uuid@
                },
            }),
    {
        if !validate_uuid(self.uuid.as_str()) {
            return Err(
                SvcError::InvalidUuid { uuid: self.uuid.clone(), kind: ResourceKind::Nexus },
            );
        }
        let mut children: Vec<crate::nexus::Child> = Vec::new();
        let n = self.children.len();
        let mut i: usize = 0;
        while i < n
            invariant
                i <= n,
                n == self.children@.len(),
                children@.len() == i,
                forall|j: int|
                    0 <= j < i ==> child_agent(self.children@[j], #[trigger] children@[j]),
            decreases n - i,
        {
            children.push(self.children[i].to_agent());
            i += 1;
        }
        Ok(
            crate::nexus::Nexus {
                node: String::new(),
                name: self.name.clone(),
                uuid: self.uuid.clone(),
                size: self.size,
                status: wire::nexus_status_from_i32(self.state),
                children,
                device_uri: self.device_uri.clone(),
                rebuilds: self.rebuilds,
                share: protocol_of_uri(self.device_uri.as_str()),
                allowed_hosts: host_nqns_from(&self.allowed_hosts),
            },
        )
    }
}

/// Converts a wire nexus reported by node `id` into a domain nexus: as
/// [`wire::Nexus::try_to_agent`], with the node filled in.
pub fn rpc_nexus_to_agent(rpc_nexus: &wire::Nexus, id: &String) -> (r: Result<
    crate::nexus::Nexus,
    SvcError,
>)
    ensures
        is_uuid(rpc_nexus.uuid@) <==> r is Ok,
        (match r {
            Ok(d) => nexus_agent_on(*rpc_nexus, d, id@),
            Err(e) => {
                &&& e matches SvcError::InvalidUuid { kind, uuid }
                &&& kind == ResourceKind::Nexus
                &&& uuid@ == rpc_nexus.uuid@
            },
        }),
{
    match rpc_nexus.try_to_agent() {
        Ok(mut nexus) => {
            proof {
                assert(nexus.node@ =~= Seq::<char>::empty());
            }
            nexus.node = id.clone();
            Ok(nexus)
        },
        Err(e) => Err(e),
    }
}

impl crate::nexus::CreateNexus {
    /// The wire request this creation request denotes: the Nvmf configuration
    /// defaults to [`crate::nexus::NexusNvmfConfig::default_with_no_resv`]
    /// when the caller chose none.
    pub fn to_rpc(&self) -> (r: wire::CreateNexusRequest)
        ensures
            ({
                let cfg = (match self.config {
                    Some(c) => c,
                    None => crate::nexus::NexusNvmfConfig::spec_default_with_no_resv(),
                });
                &&& r.name@ == self.name@
                &&& r.uuid@ == self.uuid@
                &&& r.size == self.size
                &&& r.min_cntl_id == cfg.min_cntl_id as u32
                &&& r.max_cntl_id == cfg.max_cntl_id as u32
                &&& r.resv_key == cfg.resv_key
                &&& r.preempt_key == cfg.preempt_key
                &&& r.children@ == self.children@
                &&& r.nexus_info_key@ == self.nexus_info_key@
                &&& r.resv_type == Some(wire::spec_nvme_reservation_i32(cfg.resv_type))
                &&& r.preempt_policy == wire::spec_preemption_i32(cfg.preempt_policy)
            }),
    {
        let nexus_config = match &self.config {
            Some(c) => *c,
            None => crate::nexus::NexusNvmfConfig::default_with_no_resv(),
        };
        wire::CreateNexusRequest {
            name: self.name.clone(),
            uuid: self.uuid.clone(),
            size: self.size,
            min_cntl_id: nexus_config.min_cntl_id as u32,
            max_cntl_id: nexus_config.max_cntl_id as u32,
            resv_key: nexus_config.resv_key,
            preempt_key: nexus_config.preempt_key,
            children: clone_string_vec(&self.children),
            nexus_info_key: self.nexus_info_key.clone(),
            resv_type: Some(wire::nvme_reservation_to_i32(nexus_config.resv_type)),
            preempt_policy: wire::preemption_to_i32(nexus_config.preempt_policy),
        }
    }
}

impl crate::nexus::DestroyNexus {
    /// The wire request this destroy request denotes.
    pub fn to_rpc(&self) -> (r: wire::DestroyNexusRequest)
        ensures
            r.uuid@ == self.uuid@,
    {
        wire::DestroyNexusRequest { uuid: self.uuid.clone() }
    }
}

impl crate::nexus::ShareNexus {
    /// The wire publish request this share request denotes: the encryption
    /// key defaults to the empty string when none was chosen.
    pub fn to_rpc(&self) -> (r: wire::PublishNexusRequest)
        ensures
            r.uuid@ == self.uuid@,
            r.key@ == (match self.key {
                Some(k) => k@,
                None => Seq::<char>::empty(),
            }),
            r.share == spec_protocol_i32(Protocol::spec_from_nexus_share(self.protocol)),
            r.allowed_hosts@ == self.allowed_hosts@,
    {
        wire::PublishNexusRequest {
            uuid: self.uuid.clone(),
            key: (match &self.key {
                Some(k) => k.clone(),
                None => String::new(),
            }),
            share: protocol_to_i32(Protocol::from_nexus_share(self.protocol)),
            allowed_hosts: clone_string_vec(&self.allowed_hosts),
        }
    }
}

impl crate::nexus::UnshareNexus {
    /// The wire unpublish request this unshare request denotes.
    pub fn to_rpc(&self) -> (r: wire::UnpublishNexusRequest)
        ensures
            r.uuid@ == self.uuid@,
    {
        wire::UnpublishNexusRequest { uuid: self.uuid.clone() }
    }
}

impl crate::nexus::AddNexusChild {
    /// The wire request this add-child request denotes; the wire flag asks
    /// for no rebuild, the domain flag for an automatic one.
    pub fn to_rpc(&self) -> (r: wire::AddChildNexusRequest)
        ensures
            r.uuid@ == self.nexus@,
            r.uri@ == self.uri@,
            r.norebuild == !self.auto_rebuild,
    {
        wire::AddChildNexusRequest {
            uuid: self.nexus.clone(),
            uri: self.uri.clone(),
            norebuild: !self.auto_rebuild,
        }
    }
}

impl crate::nexus::RemoveNexusChild {
    /// The wire request this remove-child request denotes.
    pub fn to_rpc(&self) -> (r: wire::RemoveChildNexusRequest)
        ensures
            r.uuid@ == self.nexus@,
            r.uri@ == self.uri@,
    {
        wire::RemoveChildNexusRequest { uuid: self.nexus.clone(), uri: self.uri.clone() }
    }
}

impl crate::nexus::FaultNexusChild {
    /// The wire request this fault-child request denotes.
    pub fn to_rpc(&self) -> (r: wire::FaultNexusChildRequest)
        ensures
            r.uuid@ == self.nexus@,
            r.uri@ == self.uri@,
    {
        wire::FaultNexusChildRequest { uuid: self.nexus.clone(), uri: self.uri.clone() }
    }
}

/// The wire number of a child action.
pub open spec fn spec_child_action_i32(k: crate::nexus::NexusChildActionKind) -> i32 {
    match k {
        crate::nexus::NexusChildActionKind::Offline => 0,
        crate::nexus::NexusChildActionKind::Online => 1,
        crate::nexus::NexusChildActionKind::Retire => 2,
    }
}

impl crate::nexus::NexusChildActionKind {
    /// The wire number this action kind denotes; retiring a child faults it
    /// with an io error on the wire.
    pub fn to_rpc(&self) -> (r: i32)
        ensures
            r == spec_child_action_i32(*self),
    {
        match self {
            crate::nexus::NexusChildActionKind::Offline => 0,
            crate::nexus::NexusChildActionKind::Online => 1,
            crate::nexus::NexusChildActionKind::Retire => 2,
        }
    }
}

impl crate::nexus::NexusChildAction {
    /// The wire request this child action denotes.
    pub fn to_rpc(&self) -> (r: wire::ChildOperationRequest)
        ensures
            r.nexus_uuid@ == self.nexus@,
            r.uri@ == self.uri@,
            r.action == spec_child_action_i32(self.action),
    {
        wire::ChildOperationRequest {
            nexus_uuid: self.nexus.clone(),
            uri: self.uri.clone(),
            action: self.action.to_rpc(),
        }
    }
}

impl crate::nexus::ShutdownNexus {
    /// The wire request this shutdown request denotes.
    pub fn to_rpc(&self) -> (r: wire::ShutdownNexusRequest)
        ensures
            r.uuid@ == self.uuid@,
    {
        wire::ShutdownNexusRequest { uuid: self.uuid.clone() }
    }
}

/// How a wire snapshot-replica descriptor mirrors a domain one: the snapshot
/// uuid is always named and the replica is never skipped.
pub open spec fn snap_repl_descr_rpc(
    d: crate::snapshot::CreateNexusSnapReplDescr,
    w: wire::NexusCreateSnapshotReplicaDescriptor,
) -> bool {
    &&& w.replica_uuid@ == d.replica@
    &&& (w.snapshot_uuid matches Some(s) && s@ == d.snap_uuid@)
    &&& w.skip == false
}

impl crate::snapshot::CreateNexusSnapReplDescr {
    /// The wire descriptor this snapshot-replica descriptor denotes.
    pub fn to_rpc(&self) -> (r: wire::NexusCreateSnapshotReplicaDescriptor)
        ensures
            snap_repl_descr_rpc(*self, r),
    {
        wire::NexusCreateSnapshotReplicaDescriptor {
            replica_uuid: self.replica.clone(),
            snapshot_uuid: Some(self.snap_uuid.clone()),
            skip: false,
        }
    }
}

impl crate::snapshot::CreateNexusSnapshot {
    /// The wire request this nexus snapshot request denotes.
    pub fn to_rpc(&self) -> (r: wire::NexusCreateSnapshotRequest)
        ensures
            r.nexus_uuid@ == self.nexus@,
            r.entity_id@ == self.params.entity@,
            r.txn_id@ == self.params.txn_id@,
            r.snapshot_name@ == self.params.name@,
            r.replicas@.len() == self.replica_desc@.len(),
            forall|i: int|
                0 <= i < self.replica_desc@.len() ==> snap_repl_descr_rpc(
                    self.replica_desc@[i],
                    #[trigger] r.replicas@[i],
                ),
    {
        let mut replicas: Vec<wire::NexusCreateSnapshotReplicaDescriptor> = Vec::new();
        let n = self.replica_desc.len();
        let mut i: usize = 0;
        while i < n
            invariant
                i <= n,
                n == self.replica_desc@.len(),
                replicas@.len() == i,
                forall|j: int|
                    0 <= j < i ==> snap_repl_descr_rpc(
                        self.replica_desc@[j],
                        #[trigger] replicas@[j],
                    ),
            decreases n - i,
        {
            replicas.push(self.replica_desc[i].to_rpc());
            i += 1;
        }
        wire::NexusCreateSnapshotRequest {
            nexus_uuid: self.nexus.clone(),
            entity_id: self.params.entity.clone(),
            txn_id: self.params.txn_id.clone(),
            snapshot_name: self.params.name.clone(),
            replicas,
        }
    }
}

impl crate::snapshot::CreateReplicaSnapshot {
    /// The wire request this replica snapshot request denotes.
    pub fn to_rpc(&self) -> (r: wire::CreateReplicaSnapshotRequest)
        ensures
            r.replica_uuid@ == self.replica@,
            r.snapshot_uuid@ == self.params.uuid@,
            r.snapshot_name@ == self.params.name@,
            r.entity_id@ == self.params.entity@,
            r.txn_id@ == self.params.txn_id@,
    {
        wire::CreateReplicaSnapshotRequest {
            replica_uuid: self.replica.clone(),
            snapshot_uuid: self.params.uuid.clone(),
            snapshot_name: self.params.name.clone(),
            entity_id: self.params.entity.clone(),
            txn_id: self.params.txn_id.clone(),
        }
    }
}

/// How a domain per-replica snapshot outcome mirrors a wire one.
pub open spec fn snap_status_agent(
    w: wire::NexusCreateSnapshotReplicaStatus,
    d: crate::snapshot::CreateNexusSnapshotReplicaStatus,
) -> bool {
    &&& d.replica_uuid@ == w.replica_uuid@
    &&& d.status == w.status_code
}

impl wire::NexusCreateSnapshotReplicaStatus {
    /// The domain outcome this wire outcome denotes. The replica uuid must be
    /// a well-formed uuid.
    pub fn try_to_agent(&self) -> (r: Result<
        crate::snapshot::CreateNexusSnapshotReplicaStatus,
        SvcError,
    >)
        ensures
            is_uuid(self.replica_uuid@) <==> r is Ok,
            (match r {
                Ok(d) => snap_status_agent(*self, d),
                Err(e) => {
                    &&& e matches SvcError::InvalidUuid { kind, uuid }
                    &&& kind == ResourceKind::Replica
                    &&& uuid@ == self.replica_uuid@
                },
            }),
    {
        if !validate_uuid(self.replica_uuid.as_str()) {
            return Err(
                SvcError::InvalidUuid {
                    uuid: self.replica_uuid.clone(),
                    kind: ResourceKind::Replica,
                },
            );
        }
        Ok(
            crate::snapshot::CreateNexusSnapshotReplicaStatus {
                replica_uuid: self.replica_uuid.clone(),
                status: self.status_code,
            },
        )
    }
}

/// Whether a wire nexus snapshot response converts without error: the nexus
/// must be present with a well-formed uuid, and every reported replica uuid,
/// done or skipped, must be well formed. This response is translated as a
/// whole: one malformed element rejects it, since a partial snapshot report
/// cannot be acted on.
pub open spec fn snap_resp_ok(w: wire::NexusCreateSnapshotResponse) -> bool {
    &&& w.nexus is Some
    &&& is_uuid(w.nexus->Some_0.uuid@)
    &&& forall|i: int|
        0 <= i < w.replicas_done@.len() ==> is_uuid(#[trigger] w.replicas_done@[i].replica_uuid@)
    &&& forall|i: int|
        0 <= i < w.replicas_skipped@.len() ==> is_uuid(#[trigger] w.replicas_skipped@[i]@)
}

impl wire::NexusCreateSnapshotResponse {
    /// The domain snapshot response this wire response denotes. An absent
    /// nexus is rejected with `InvalidArguments`; a malformed uuid anywhere in
    /// the response is rejected with `InvalidUuid` naming it.
    pub fn try_to_agent(&self) -> (r: Result<
        crate::snapshot::CreateNexusSnapshotResp,
        SvcError,
    >)
        ensures
            snap_resp_ok(*self) <==> r is Ok,
            (match r {
                Ok(d) => {
                    &&& nexus_agent(self.nexus->Some_0, d.nexus)
                    &&& d.snap_time == spec_epoch_or_default(self.snapshot_timestamp)
                    &&& d.replicas_status@.len() == self.replicas_done@.len()
                    &&& forall|i: int|
                        0 <= i < self.replicas_done@.len() ==> snap_status_agent(
                            self.replicas_done@[i],
                            #[trigger] d.replicas_status@[i],
                        )
                    &&& d.skipped@.len() == self.replicas_skipped@.len()
                    &&& forall|i: int|
                        0 <= i < self.replicas_skipped@.len()
                            ==> #[trigger] d.skipped@[i]@ == self.replicas_skipped@[i]@
                },
                Err(e) => {
                    ||| (self.nexus is None && e is InvalidArguments)
                    ||| (e matches SvcError::InvalidUuid { kind, uuid } && (
                        (kind == ResourceKind::Nexus && (self.nexus matches Some(n) && uuid@
                            == n.uuid@ && !is_uuid(n.uuid@)))
                        || (kind == ResourceKind::Replica && exists|i: int|
                            0 <= i < self.replicas_done@.len() && uuid@
                                == #[trigger] self.replicas_done@[i].replica_uuid@ && !is_uuid(
                                self.replicas_done@[i].replica_uuid@,
                            ))
                        || (kind == ResourceKind::Replica && exists|i: int|
                            0 <= i < self.replicas_skipped@.len() && uuid@
                                == #[trigger] self.replicas_skipped@[i]@ && !is_uuid(
                                self.replicas_skipped@[i]@,
                            ))))
                },
            }),
    {
        let nexus = match &self.nexus {
            Some(n) => (match n.try_to_agent() {
                Ok(d) => d,
                Err(e) => {
                    return Err(e);
                },
            }),
            None => {
                return Err(SvcError::InvalidArguments);
            },
        };
        let mut replicas_status: Vec<crate::snapshot::CreateNexusSnapshotReplicaStatus> =
            Vec::new();
        let n = self.replicas_done.len();
        let mut i: usize = 0;
        while i < n
            invariant
                i <= n,
                n == self.replicas_done@.len(),
                replicas_status@.len() == i,
                forall|j: int|
                    0 <= j < i ==> snap_status_agent(
                        self.replicas_done@[j],
                        #[trigger] replicas_status@[j],
                    ),
                forall|j: int|
                    0 <= j < i ==> is_uuid(#[trigger] self.replicas_done@[j].replica_uuid@),
            decreases n - i,
        {
            match self.replicas_done[i].try_to_agent() {
                Ok(d) => {
                    replicas_status.push(d);
                },
                Err(e) => {
                    return Err(e);
                },
            }
            i += 1;
        }
        let mut skipped: Vec<String> = Vec::new();
        let m = self.replicas_skipped.len();
        let mut j: usize = 0;
        while j < m
            invariant
                j <= m,
                m == self.replicas_skipped@.len(),
                skipped@.len() == j,
                forall|k: int|
                    0 <= k < j ==> #[trigger] skipped@[k]@ == self.replicas_skipped@[k]@,
                forall|k: int| 0 <= k < j ==> is_uuid(#[trigger] self.replicas_skipped@[k]@),
            decreases m - j,
        {
            let s = &self.replicas_skipped[j];
            if !validate_uuid(s.as_str()) {
                return Err(
                    SvcError::InvalidUuid { uuid: s.clone(), kind: ResourceKind::Replica },
                );
            }
            skipped.push(s.clone());
            j += 1;
        }
        Ok(
            crate::snapshot::CreateNexusSnapshotResp {
                nexus,
                snap_time: epoch_or_default(&self.snapshot_timestamp),
                replicas_status,
                skipped,
            },
        )
    }
}

/// How a domain replica snapshot descriptor mirrors a wire snapshot: the pool
/// is left unnamed until the engine reports it.
pub open spec fn replica_snapshot_agent(
    w: wire::ReplicaSnapshot,
    d: crate::snapshot::ReplicaSnapshotDescr,
) -> bool {
    &&& d.snap_uuid@ == w.snapshot_uuid@
    &&& d.snap_name@ == w.snapshot_name@
    &&& d.snap_size == w.snapshot_size
    &&& d.num_clones == w.num_clones
    &&& d.snap_time == spec_epoch_or_default(w.timestamp)
    &&& d.replica_uuid@ == w.replica_uuid@
    &&& d.pool_uuid@.len() == 0
    &&& d.pool_id@.len() == 0
    &&& d.replica_size == w.replica_size
    &&& d.entity_id@ == w.entity_id@
    &&& d.txn_id@ == w.txn_id@
    &&& d.valid == w.valid_snapshot
}

impl wire::ReplicaSnapshot {
    /// The domain snapshot descriptor this wire snapshot denotes. The
    /// snapshot uuid and the replica uuid must be well-formed uuids, the
    /// snapshot uuid checked first.
    pub fn try_to_agent(&self) -> (r: Result<crate::snapshot::ReplicaSnapshotDescr, SvcError>)
        ensures
            is_uuid(self.snapshot_uuid@) && is_uuid(self.replica_uuid@) <==> r is Ok,
            (match r {
                Ok(d) => replica_snapshot_agent(*self, d),
                Err(e) => {
                    &&& e matches SvcError::InvalidUuid { kind, uuid }
                    &&& (if !is_uuid(self.snapshot_uuid@) {
                        kind == ResourceKind::ReplicaSnapshot && uuid@ == self.snapshot_uuid@
                    } else {
                        kind == ResourceKind::Replica && uuid@ == self.replica_uuid@
                    })
                },
            }),
    {
        if !validate_uuid(self.snapshot_uuid.as_str()) {
            return Err(
                SvcError::InvalidUuid {
                    uuid: self.snapshot_uuid.clone(),
                    kind: ResourceKind::ReplicaSnapshot,
                },
            );
        }
        if !validate_uuid(self.replica_uuid.as_str()) {
            return Err(
                SvcError::InvalidUuid {
                    uuid: self.replica_uuid.clone(),
                    kind: ResourceKind::Replica,
                },
            );
        }
        Ok(
            crate::snapshot::ReplicaSnapshotDescr {
                snap_uuid: self.snapshot_uuid.clone(),
                snap_name: self.snapshot_name.clone(),
                snap_size: self.snapshot_size,
                num_clones: self.num_clones,
                snap_time: epoch_or_default(&self.timestamp),
                replica_uuid: self.replica_uuid.clone(),
                pool_uuid: String::new(),
                pool_id: String::new(),
                replica_size: self.replica_size,
                entity_id: self.entity_id.clone(),
                txn_id: self.txn_id.clone(),
                valid: self.valid_snapshot,
            },
        )
    }
}

impl wire::CreateReplicaSnapshotResponse {
    /// The domain snapshot descriptor this wire response carries. A response
    /// with no snapshot is rejected with `InvalidArguments`; an ill-formed
    /// snapshot is rejected as [`wire::ReplicaSnapshot::try_to_agent`] says.
    pub fn try_to_agent(&self) -> (r: Result<crate::snapshot::ReplicaSnapshotDescr, SvcError>)
        ensures
            (self.snapshot matches Some(s) && is_uuid(s.snapshot_uuid@) && is_uuid(
                s.replica_uuid@,
            )) <==> r is Ok,
            (match r {
                Ok(d) => replica_snapshot_agent(self.snapshot->Some_0, d),
                Err(e) => {
                    ||| (self.snapshot is None && e is InvalidArguments)
                    ||| (self.snapshot matches Some(s) && e matches SvcError::InvalidUuid {
                        kind,
                        uuid,
                    } && (if !is_uuid(s.snapshot_uuid@) {
                        kind == ResourceKind::ReplicaSnapshot && uuid@ == s.snapshot_uuid@
                    } else {
                        kind == ResourceKind::Replica && uuid@ == s.replica_uuid@
                    }))
                },
            }),
    {
        match &self.snapshot {
            Some(s) => s.try_to_agent(),
            None => Err(SvcError::InvalidArguments),
        }
    }
}

impl crate::snapshot::GetRebuildRecord {
    /// The wire request this rebuild-history request denotes.
    pub fn to_rpc(&self) -> (r: wire::RebuildHistoryRequest)
        ensures
            r.uuid@ == self.nexus@,
    {
        wire::RebuildHistoryRequest { uuid: self.nexus.clone() }
    }
}

/// Whether a wire rebuild record converts without error: both uris must be
/// plausible child uris, the job state must be in the wire table, and both
/// instants must be present and denote real times.
pub open spec fn rebuild_record_ok(w: wire::RebuildHistoryRecord) -> bool {
    &&& is_child_uri(w.child_uri@)
    &&& is_child_uri(w.src_uri@)
    &&& wire::spec_rebuild_state_from_i32(w.state) is Some
    &&& (w.start_time matches Some(t) && wire::spec_timestamp_to_epoch(t) is Some)
    &&& (w.end_time matches Some(t) && wire::spec_timestamp_to_epoch(t) is Some)
}

/// How a domain rebuild record mirrors a wire one.
pub open spec fn rebuild_record_agent(
    w: wire::RebuildHistoryRecord,
    d: crate::snapshot::RebuildRecord,
) -> bool {
    &&& d.child_uri@ == w.child_uri@
    &&& d.src_uri@ == w.src_uri@
    &&& Some(d.state) == wire::spec_rebuild_state_from_i32(w.state)
    &&& d.blocks_total == w.blocks_total
    &&& d.blocks_recovered == w.blocks_recovered
    &&& d.blocks_transferred == w.blocks_transferred
    &&& d.blocks_remaining == w.blocks_remaining
    &&& d.blocks_per_task == w.blocks_per_task
    &&& d.block_size == w.block_size
    &&& d.is_partial == w.is_partial
    &&& Some(d.start_time) == wire::spec_timestamp_to_epoch(w.start_time->Some_0)
    &&& Some(d.end_time) == wire::spec_timestamp_to_epoch(w.end_time->Some_0)
}

impl wire::RebuildHistoryRecord {
    /// The domain rebuild record this wire record denotes. Malformed uris are
    /// rejected with `InvalidUuid` naming the child and the offending value,
    /// the rebuilt child's uri checked first; a job state outside the wire
    /// table or a missing or unreal instant is rejected with
    /// `InvalidArguments`.
    pub fn try_to_agent(&self) -> (r: Result<crate::snapshot::RebuildRecord, SvcError>)
        ensures
            rebuild_record_ok(*self) <==> r is Ok,
            (match r {
                Ok(d) => rebuild_record_agent(*self, d),
                Err(e) => {
                    ||| (e matches SvcError::InvalidUuid { kind, uuid } && kind
                        == ResourceKind::Child && (if !is_child_uri(self.child_uri@) {
                        uuid@ == self.child_uri@
                    } else {
                        uuid@ == self.src_uri@ && !is_child_uri(self.src_uri@)
                    }))
                    ||| (e is InvalidArguments && is_child_uri(self.child_uri@) && is_child_uri(
                        self.src_uri@,
                    ))
                },
            }),
    {
        if !validate_child_uri(self.child_uri.as_str()) {
            return Err(
                SvcError::InvalidUuid { uuid: self.child_uri.clone(), kind: ResourceKind::Child },
            );
        }
        if !validate_child_uri(self.src_uri.as_str()) {
            return Err(
                SvcError::InvalidUuid { uuid: self.src_uri.clone(), kind: ResourceKind::Child },
            );
        }
        let state = match wire::rebuild_state_from_i32(self.state) {
            Some(s) => s,
            None => {
                return Err(SvcError::InvalidArguments);
            },
        };
        let start_time = match &self.start_time {
            Some(t) => (match wire::timestamp_to_epoch(t) {
                Some(e) => e,
                None => {
                    return Err(SvcError::InvalidArguments);
                },
            }),
            None => {
                return Err(SvcError::InvalidArguments);
            },
        };
        let end_time = match &self.end_time {
            Some(t) => (match wire::timestamp_to_epoch(t) {
                Some(e) => e,
                None => {
                    return Err(SvcError::InvalidArguments);
                },
            }),
            None => {
                return Err(SvcError::InvalidArguments);
            },
        };
        Ok(
            crate::snapshot::RebuildRecord {
                child_uri: self.child_uri.clone(),
                src_uri: self.src_uri.clone(),
                state,
                blocks_total: self.blocks_total,
                blocks_recovered: self.blocks_recovered,
                blocks_transferred: self.blocks_transferred,
                blocks_remaining: self.blocks_remaining,
                blocks_per_task: self.blocks_per_task,
                block_size: self.block_size,
                is_partial: self.is_partial,
                start_time,
                end_time,
            },
        )
    }
}

impl wire::RebuildHistoryResponse {
    /// The domain rebuild history this wire response denotes. The nexus uuid
    /// must be a well-formed uuid and every record must convert; this history
    /// is translated as a whole, since dropping single records would
    /// misrepresent it.
    pub fn try_to_agent(&self) -> (r: Result<crate::snapshot::RebuildHistory, SvcError>)
        ensures
            (is_uuid(self.nexus@) && forall|i: int|
                0 <= i < self.records@.len() ==> rebuild_record_ok(#[trigger] self.records@[i]))
                <==> r is Ok,
            (match r {
                Ok(d) => {
                    &&& d.uuid@ == self.nexus@
                    &&& d.records@.len() == self.records@.len()
                    &&& forall|i: int|
                        0 <= i < self.records@.len() ==> rebuild_record_agent(
                            self.records@[i],
                            #[trigger] d.records@[i],
                        )
                },
                Err(e) => {
                    ||| (!is_uuid(self.nexus@) && (e matches SvcError::InvalidUuid { kind, uuid }
                        && kind == ResourceKind::Nexus && uuid@ == self.nexus@))
                    ||| (is_uuid(self.nexus@) && exists|i: int|
                        0 <= i < self.records@.len() && !rebuild_record_ok(
                            #[trigger] self.records@[i],
                        ))
                },
            }),
    {
        if !validate_uuid(self.nexus.as_str()) {
            return Err(
                SvcError::InvalidUuid { uuid: self.nexus.clone(), kind: ResourceKind::Nexus },
            );
        }
        let mut records: Vec<crate::snapshot::RebuildRecord> = Vec::new();
        let n = self.records.len();
        let mut i: usize = 0;
        while i < n
            invariant
                i <= n,
                n == self.records@.len(),
                is_uuid(self.nexus@),
                records@.len() == i,
                forall|j: int| 0 <= j < i ==> rebuild_record_ok(#[trigger] self.records@[j]),
                forall|j: int|
                    0 <= j < i ==> rebuild_record_agent(
                        self.records@[j],
                        #[trigger] records@[j],
                    ),
            decreases n - i,
        {
            match self.records[i].try_to_agent() {
                Ok(d) => {
                    records.push(d);
                },
                Err(e) => {
                    assert(!rebuild_record_ok(self.records@[i as int]));
                    return Err(e);
                },
            }
            i += 1;
        }
        Ok(crate::snapshot::RebuildHistory { uuid: self.nexus.clone(), records })
    }
}

/// Whether the engine's report of one replica converts without error.
pub open spec fn replica_wire_ok(w: wire::Replica) -> bool {
    is_uuid(w.uuid@) && is_uuid(w.pooluuid@)
}

/// The indices of the replicas in `s` that convert without error, in order.
pub open spec fn valid_replica_indices(s: Seq<wire::Replica>) -> Seq<int>
    decreases s.len(),
{
    if s.len() == 0 {
        Seq::empty()
    } else {
        let rest = valid_replica_indices(s.drop_last());
        if replica_wire_ok(s.last()) {
            rest.push(s.len() - 1)
        } else {
            rest
        }
    }
}

/// Converts a batch of wire replicas reported by node `id`. A malformed
/// record is dropped and the rest of the batch is kept: the result holds
/// exactly the replicas that convert, in their reported order, each with the
/// node filled in.
pub fn rpc_replicas_to_agent(list: &Vec<wire::Replica>, id: &String) -> (r: Vec<Replica>)
    ensures
        r@.len() == valid_replica_indices(list@).len(),
        forall|k: int|
            0 <= k < r@.len() ==> replica_agent_on(
                list@[valid_replica_indices(list@)[k]],
                #[trigger] r@[k],
                id@,
            ),
{
    let mut r: Vec<Replica> = Vec::new();
    let n = list.len();
    let mut i: usize = 0;
    while i < n
        invariant
            i <= n,
            n == list@.len(),
            r@.len() == valid_replica_indices(list@.subrange(0, i as int)).len(),
            forall|k: int|
                0 <= k < r@.len() ==> replica_agent_on(
                    list@[valid_replica_indices(list@.subrange(0, i as int))[k]],
                    #[trigger] r@[k],
                    id@,
                ),
            forall|k: int|
                0 <= k < valid_replica_indices(list@.subrange(0, i as int)).len()
                    ==> 0 <= #[trigger] valid_replica_indices(list@.subrange(0, i as int))[k]
                    < i,
        decreases n - i,
    {
        let ghost pre = list@.subrange(0, i as int);
        let ghost cur = list@.subrange(0, i + 1 as int);
        proof {
            assert(cur.drop_last() =~= pre);
            assert(cur.last() == list@[i as int]);
        }
        match rpc_replica_to_agent(&list[i], id) {
            Ok(d) => {
                r.push(d);
            },
            Err(_) => {
            },
        }
        i += 1;
    }
    proof {
        assert(list@.subrange(0, n as int) =~= list@);
    }
    r
}

/// Converts a batch of wire pools reported by node `id`: every pool converts,
/// in order, each with the node filled in.
pub fn rpc_pools_to_agent(list: &Vec<wire::Pool>, id: &String) -> (r: Vec<PoolState>)
    ensures
        r@.len() == list@.len(),
        forall|i: int|
            0 <= i < list@.len() ==> pool_agent_on(list@[i], #[trigger] r@[i], id@),
{
    let mut r: Vec<PoolState> = Vec::new();
    let n = list.len();
    let mut i: usize = 0;
    while i < n
        invariant
            i <= n,
            n == list@.len(),
            r@.len() == i,
            forall|j: int| 0 <= j < i ==> pool_agent_on(list@[j], #[trigger] r@[j], id@),
        decreases n - i,
    {
        r.push(rpc_pool_to_agent(&list[i], id));
        i += 1;
    }
    r
}

} // verus!
