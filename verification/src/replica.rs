//! Replica types that can be saved to the persistent store, the replica
//! operation table of the transaction engine, and the transport requests and
//! state reports exchanged with callers about replicas.

use vstd::prelude::*;
use crate::ids::{Protocol, ReplicaShareProtocol, ResourceKind, SpecState};
use crate::store::{ObjectKey, StorableObject, StorableObjectType};
use crate::transaction::{OperationRecord, SpecTransaction};

verus! {

/// Health of a replica as last reported by the data-plane engine.
#[derive(Clone, Copy, Debug, PartialEq, Eq, Structural)]
pub enum ReplicaStatus {
    Unknown,
    Online,
    Degraded,
    Faulted,
}

/// Lifecycle tag of a replica specification.
pub type ReplicaSpecState = SpecState<ReplicaStatus>;

/// Available replica operations.
#[derive(Clone, Copy, Debug, PartialEq, Eq, Structural)]
pub enum ReplicaOperation {
    Create,
    Destroy,
    Share(ReplicaShareProtocol),
    Unshare,
}

/// Operation state for a replica spec resource.
pub type ReplicaOperationState = OperationRecord<ReplicaOperation>;

/// User specification of a replica: desired configuration plus the
/// transaction fields driven by the [`SpecTransaction`] engine.
#[derive(Debug, PartialEq, Eq)]
pub struct ReplicaSpec {
    /// Name of the replica; by convention the uuid when the caller gave none.
    pub name: String,
    /// Replica uuid.
    pub uuid: String,
    /// Size in bytes.
    pub size: u64,
    /// Name of the pool hosting the replica.
    pub pool: String,
    /// Protocol the replica should be shared over.
    pub share: Protocol,
    /// Whether the replica is thin provisioned.
    pub thin: bool,
    /// State that the replica should eventually achieve.
    pub state: ReplicaSpecState,
    /// Whether the replica is managed by the control plane.
    pub managed: bool,
    /// Owners of the replica (volumes it serves).
    pub owners: Vec<String>,
    /// Update of the state in progress.
    pub updating: bool,
    /// Record of the operation in progress.
    pub operation: Option<ReplicaOperationState>,
}

impl ReplicaSpec {
    /// The replica-specific effect table: committing `Create` or `Destroy`
    /// moves the lifecycle forward; committing `Share` or `Unshare` rewrites
    /// the share protocol.
    pub open spec fn applied(self, op: ReplicaOperation) -> ReplicaSpec {
        match op {
            ReplicaOperation::Create => ReplicaSpec {
                state: SpecState::Created(ReplicaStatus::Online),
                ..self
            },
            ReplicaOperation::Destroy => ReplicaSpec { state: SpecState::Deleted, ..self },
            ReplicaOperation::Share(p) => ReplicaSpec {
                share: Protocol::spec_from_replica_share(p),
                ..self
            },
            ReplicaOperation::Unshare => ReplicaSpec { share: Protocol::Off, ..self },
        }
    }
}

impl SpecTransaction<ReplicaOperation> for ReplicaSpec {
    open spec fn spec_op(&self) -> Option<OperationRecord<ReplicaOperation>> {
        self.operation
    }

    open spec fn spec_updating(&self) -> bool {
        self.updating
    }

    open spec fn spec_kind(&self) -> ResourceKind {
        ResourceKind::Replica
    }

    open spec fn spec_uuid(&self) -> Seq<char> {
        self.uuid@
    }

    /// `Create` is admitted only while the replica is still being created, so
    /// a committed creation can never move the lifecycle backwards.
    open spec fn admits(&self, op: ReplicaOperation) -> bool {
        match op {
            ReplicaOperation::Create => self.state is Creating,
            _ => true,
        }
    }

    open spec fn applies_to(&self, op: ReplicaOperation, post: ReplicaSpec) -> bool {
        post == self.applied(op)
    }

    open spec fn with_tx(
        &self,
        rec: Option<OperationRecord<ReplicaOperation>>,
        updating: bool,
    ) -> ReplicaSpec {
        ReplicaSpec { operation: rec, updating, ..*self }
    }

    proof fn lemma_with_tx(
        &self,
        rec1: Option<OperationRecord<ReplicaOperation>>,
        u1: bool,
        rec2: Option<OperationRecord<ReplicaOperation>>,
        u2: bool,
    ) {
    }

    proof fn lemma_with_tx_admits(
        &self,
        rec: Option<OperationRecord<ReplicaOperation>>,
        u: bool,
        op: ReplicaOperation,
    ) {
    }

    fn pending_op(&self) -> (r: bool) {
        self.operation.is_some()
    }

    fn take_op(&mut self) -> (r: Option<OperationRecord<ReplicaOperation>>) {
        let mut tmp: Option<OperationRecord<ReplicaOperation>> = None;
        core::mem::swap(&mut self.operation, &mut tmp);
        tmp
    }

    fn write_tx(&mut self, rec: Option<OperationRecord<ReplicaOperation>>, updating: bool) {
        self.operation = rec;
        self.updating = updating;
    }

    fn admits_op(&self, op: &ReplicaOperation) -> (r: bool) {
        match op {
            ReplicaOperation::Create => matches!(self.state, SpecState::Creating),
            _ => true,
        }
    }

    fn resource_kind(&self) -> (k: ResourceKind) {
        ResourceKind::Replica
    }

    fn resource_uuid(&self) -> (u: String) {
        self.uuid.clone()
    }

    fn apply_op(&mut self, op: ReplicaOperation) {
        match op {
            ReplicaOperation::Create => {
                self.state = SpecState::Created(ReplicaStatus::Online);
            },
            ReplicaOperation::Destroy => {
                self.state = SpecState::Deleted;
            },
            ReplicaOperation::Share(p) => {
                self.share = Protocol::from_replica_share(p);
            },
            ReplicaOperation::Unshare => {
                self.share = Protocol::Off;
            },
        }
    }
}

impl ReplicaSpec {
    /// The desired specification derived from a creation request: the name
    /// defaults to the uuid, lifecycle at `Creating`, unmanaged with no
    /// owners yet, and no operation pending.
    pub fn from_request(request: &CreateReplica) -> (r: ReplicaSpec)
        ensures
            r.name@ == spec_replica_name(request.name, request.uuid@),
            r.uuid@ == request.uuid@,
            r.size == request.size,
            r.pool@ == request.pool_id@,
            r.share == request.share,
            r.thin == request.thin,
            r.state == ReplicaSpecState::Creating,
            !r.managed,
            r.owners@.len() == 0,
            !r.updating,
            r.operation is None,
    {
        ReplicaSpec {
            name: replica_name_from_opt_uuid(request.name.as_ref(), &request.uuid),
            uuid: request.uuid.clone(),
            size: request.size,
            pool: request.pool_id.clone(),
            share: request.share,
            thin: request.thin,
            state: SpecState::Creating,
            managed: false,
            owners: Vec::new(),
            updating: false,
            operation: None,
        }
    }
}

/// The replica effect table only moves the lifecycle tag forward: an admitted
/// `Create` lifts a replica still being created to `Created`, `Destroy` moves
/// any replica to `Deleted`, and the share operations leave the tag alone.
pub proof fn lemma_replica_effects_advance_lifecycle(
    s: ReplicaSpec,
    op: ReplicaOperation,
    post: ReplicaSpec,
)
    requires
        s.admits(op),
        s.applies_to(op, post),
    ensures
        post.state.stage() >= s.state.stage(),
{
}

/// Key used by the store to uniquely identify a ReplicaSpec structure.
pub struct ReplicaSpecKey(String);

impl ReplicaSpecKey {
    /// The key of the replica specification with this uuid.
    pub fn new(uuid: &String) -> (r: ReplicaSpecKey)
        ensures
            r.spec_key_uuid() == uuid@,
    {
        ReplicaSpecKey(uuid.clone())
    }
}

impl ObjectKey for ReplicaSpecKey {
    open spec fn spec_key_type(&self) -> StorableObjectType {
        StorableObjectType::ReplicaSpec
    }

    closed spec fn spec_key_uuid(&self) -> Seq<char> {
        self.0@
    }

    fn key_type(&self) -> (t: StorableObjectType) {
        StorableObjectType::ReplicaSpec
    }

    fn key_uuid(&self) -> (u: String) {
        self.0.clone()
    }
}

impl StorableObject for ReplicaSpec {
    type Key = ReplicaSpecKey;

    open spec fn spec_key_type(&self) -> StorableObjectType {
        StorableObjectType::ReplicaSpec
    }

    open spec fn spec_key_uuid(&self) -> Seq<char> {
        self.uuid@
    }

    fn key(&self) -> (k: ReplicaSpecKey) {
        ReplicaSpecKey::new(&self.uuid)
    }
}

/// Space usage of a replica as reported by the data-plane engine.
#[derive(Clone, Copy, Debug, PartialEq, Eq, Structural)]
pub struct ReplicaSpaceUsage {
    /// Capacity in bytes.
    pub capacity_bytes: u64,
    /// Bytes allocated so far.
    pub allocated_bytes: u64,
    /// Size of one cluster.
    pub cluster_size: u64,
    /// Number of clusters.
    pub clusters: u64,
    /// Number of allocated clusters.
    pub allocated_clusters: u64,
}

/// A host allowed to connect to a shared resource, by its NVMe qualified
/// name; names the engine reports that do not parse are carried as `Invalid`
/// rather than dropped.
#[derive(Clone, Debug, PartialEq, Eq)]
pub enum HostNqn {
    /// A well-formed qualified name.
    Nqn(String),
    /// A name that does not parse as a qualified name.
    Invalid { nqn: String },
}

/// A well-formed NVMe qualified name in this model: it begins with the
/// registered prefix `nqn.`.
pub open spec fn is_nqn(s: Seq<char>) -> bool {
    s.len() >= 4 && s.subrange(0, 4) == "nqn."@
}

/// Classifies a host name: `Nqn` when well formed, `Invalid` otherwise.
pub fn host_nqn_from(s: String) -> (r: HostNqn)
    ensures
        is_nqn(s@) ==> (r matches HostNqn::Nqn(n) && n@ == s@),
        !is_nqn(s@) ==> (r matches HostNqn::Invalid { nqn } && nqn@ == s@),
{
    proof {
        reveal_strlit("nqn.");
    }
    let valid = s.unicode_len() >= 4 && {
        let prefix = s.as_str().substring_char(0, 4);
        proof {
            reveal_strlit("nqn.");
        }
        prefix.get_char(0) == 'n' && prefix.get_char(1) == 'q' && prefix.get_char(2) == 'n'
            && prefix.get_char(3) == '.'
    };
    proof {
        if s@.len() >= 4 {
            assert(is_nqn(s@) <==> (s@.subrange(0, 4) =~= "nqn."@));
        }
    }
    if valid {
        HostNqn::Nqn(s)
    } else {
        HostNqn::Invalid { nqn: s }
    }
}

/// Runtime state of a replica, as last observed from the data-plane engine.
#[derive(Debug, PartialEq, Eq)]
pub struct Replica {
    /// Id of the node the replica lives on.
    pub node: String,
    /// Name of the replica.
    pub name: String,
    /// Replica uuid.
    pub uuid: String,
    /// Name of the pool hosting the replica.
    pub pool_id: String,
    /// Uuid of the pool hosting the replica, when known.
    pub pool_uuid: Option<String>,
    /// Whether the replica is thin provisioned.
    pub thin: bool,
    /// Size in bytes.
    pub size: u64,
    /// Space usage, when the engine reported it.
    pub space: Option<ReplicaSpaceUsage>,
    /// Protocol the replica is shared over.
    pub share: Protocol,
    /// Uri the replica is reachable under.
    pub uri: String,
    /// Health of the replica.
    pub status: ReplicaStatus,
    /// Hosts allowed to connect.
    pub allowed_hosts: Vec<HostNqn>,
}

/// Request to create a replica.
#[derive(Debug, PartialEq, Eq)]
pub struct CreateReplica {
    /// Id of the node the replica should live on.
    pub node: String,
    /// Name of the replica; the uuid is used when absent.
    pub name: Option<String>,
    /// Replica uuid.
    pub uuid: String,
    /// Name of the pool to host the replica.
    pub pool_id: String,
    /// Uuid of the pool to host the replica, when known.
    pub pool_uuid: Option<String>,
    /// Size in bytes.
    pub size: u64,
    /// Whether the replica is thin provisioned.
    pub thin: bool,
    /// Protocol the replica should be shared over.
    pub share: Protocol,
    /// Hosts allowed to connect.
    pub allowed_hosts: Vec<String>,
}

/// Request to destroy a replica.
#[derive(Debug, PartialEq, Eq)]
pub struct DestroyReplica {
    /// Id of the node the replica lives on.
    pub node: String,
    /// Name of the pool hosting the replica.
    pub pool_id: String,
    /// Uuid of the pool hosting the replica, when known.
    pub pool_uuid: Option<String>,
    /// Name of the replica; the uuid is used when absent.
    pub name: Option<String>,
    /// Replica uuid.
    pub uuid: String,
}

/// Request to share a replica.
#[derive(Debug, PartialEq, Eq)]
pub struct ShareReplica {
    /// Id of the node the replica lives on.
    pub node: String,
    /// Name of the pool hosting the replica.
    pub pool_id: String,
    /// Name of the replica; the uuid is used when absent.
    pub name: Option<String>,
    /// Replica uuid.
    pub uuid: String,
    /// Protocol to share over.
    pub protocol: ReplicaShareProtocol,
    /// Hosts allowed to connect.
    pub allowed_hosts: Vec<String>,
}

/// Request to unshare a replica.
#[derive(Debug, PartialEq, Eq)]
pub struct UnshareReplica {
    /// Id of the node the replica lives on.
    pub node: String,
    /// Name of the pool hosting the replica.
    pub pool_id: String,
    /// Name of the replica; the uuid is used when absent.
    pub name: Option<String>,
    /// Replica uuid.
    pub uuid: String,
}

/// The wire name of a replica: the explicit name when one was given, the uuid
/// otherwise.
pub open spec fn spec_replica_name(name: Option<String>, uuid: Seq<char>) -> Seq<char> {
    match name {
        Some(n) => n@,
        None => uuid,
    }
}

/// The wire name of a replica, from an optional name and the uuid.
pub fn replica_name_from_opt_uuid(name: Option<&String>, uuid: &String) -> (r: String)
    ensures
        (match name {
            Some(n) => r@ == n@,
            None => r@ == uuid@,
        }),
{
    match name {
        Some(n) => n.clone(),
        None => uuid.clone(),
    }
}

} // verus!
