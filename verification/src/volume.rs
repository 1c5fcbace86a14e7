//! Volume types that can be saved to the persistent store: the desired
//! specification with its transaction record, the last-observed runtime
//! state, and the keys both are stored under.

use vstd::prelude::*;
use crate::ids::{Protocol, ResourceKind, SpecState, VolumeShareProtocol};
use crate::store::{ObjectKey, StorableObject, StorableObjectType};
use crate::transaction::{OperationRecord, SpecTransaction};

verus! {

/// Overall health of a volume as last reported by the data-plane engine.
#[derive(Clone, Copy, Debug, PartialEq, Eq, Structural)]
pub enum VolumeStatus {
    Unknown,
    Online,
    Degraded,
    Faulted,
}

/// Lifecycle tag of a volume specification.
pub type VolumeSpecState = SpecState<VolumeStatus>;

/// Request to create a volume, as decoded by the transport layer.
#[derive(Clone, Debug, PartialEq, Eq)]
pub struct CreateVolume {
    /// Volume uuid.
    pub uuid: String,
    /// Size in bytes.
    pub size: u64,
    /// Number of replicas the volume should have.
    pub replicas: u64,
}

/// Available volume operations.
#[derive(Debug, PartialEq, Eq)]
pub enum VolumeOperation {
    Share(VolumeShareProtocol),
    Unshare,
    AddReplica,
    RemoveReplica,
    Publish((String, Option<VolumeShareProtocol>)),
    Unpublish,
}

impl Clone for VolumeOperation {
    /// Clones preserve the operation exactly.
    fn clone(&self) -> (r: Self)
        ensures
            r == *self,
    {
        match self {
            VolumeOperation::Share(share) => VolumeOperation::Share(*share),
            VolumeOperation::Unshare => VolumeOperation::Unshare,
            VolumeOperation::AddReplica => VolumeOperation::AddReplica,
            VolumeOperation::RemoveReplica => VolumeOperation::RemoveReplica,
            VolumeOperation::Publish((node, share)) => VolumeOperation::Publish(
                (node.clone(), *share),
            ),
            VolumeOperation::Unpublish => VolumeOperation::Unpublish,
        }
    }
}

/// Operation state for a volume spec resource: the record of the operation in
/// progress and its outcome, once one is known.
pub type VolumeOperationState = OperationRecord<VolumeOperation>;

/// User specification of a volume: desired configuration plus the transaction
/// fields driven by the [`SpecTransaction`] engine.
#[derive(Debug, PartialEq, Eq)]
pub struct VolumeSpec {
    /// Volume uuid.
    pub uuid: String,
    /// Size that the volume should be.
    pub size: u64,
    /// Volume labels.
    pub labels: Vec<String>,
    /// Number of children the volume should have.
    pub num_replicas: u8,
    /// Protocol that the volume should be shared over.
    pub protocol: Protocol,
    /// Number of front-end paths.
    pub num_paths: u8,
    /// State that the volume should eventually achieve.
    pub state: VolumeSpecState,
    /// The node where front-end IO will be sent to.
    pub target_node: Option<String>,
    /// Update of the state in progress.
    pub updating: bool,
    /// Record of the operation in progress.
    pub operation: Option<VolumeOperationState>,
}

impl VolumeSpec {
    /// The volume-specific effect table: how committing `op` rewrites the
    /// desired fields. `AddReplica` and `RemoveReplica` move the replica
    /// count by exactly one; `start_op` refuses them when that would leave
    /// the count out of range, so the effect is never saturated here.
    pub open spec fn applied(self, op: VolumeOperation) -> VolumeSpec {
        match op {
            VolumeOperation::Share(share) => VolumeSpec {
                protocol: Protocol::spec_from_volume_share(share),
                ..self
            },
            VolumeOperation::Unshare => VolumeSpec { protocol: Protocol::Off, ..self },
            VolumeOperation::AddReplica => VolumeSpec {
                num_replicas: (self.num_replicas + 1) as u8,
                ..self
            },
            VolumeOperation::RemoveReplica => VolumeSpec {
                num_replicas: (self.num_replicas - 1) as u8,
                ..self
            },
            VolumeOperation::Publish((node, share)) => VolumeSpec {
                target_node: Some(node),
                protocol: (match share {
                    Some(s) => Protocol::spec_from_volume_share(s),
                    None => Protocol::Off,
                }),
                ..self
            },
            VolumeOperation::Unpublish => VolumeSpec {
                target_node: None,
                protocol: Protocol::Off,
                ..self
            },
        }
    }
}

impl SpecTransaction<VolumeOperation> for VolumeSpec {
    open spec fn spec_op(&self) -> Option<OperationRecord<VolumeOperation>> {
        self.operation
    }

    open spec fn spec_updating(&self) -> bool {
        self.updating
    }

    open spec fn spec_kind(&self) -> ResourceKind {
        ResourceKind::Volume
    }

    open spec fn spec_uuid(&self) -> Seq<char> {
        self.uuid@
    }

    open spec fn admits(&self, op: VolumeOperation) -> bool {
        match op {
            VolumeOperation::AddReplica => self.num_replicas < 255,
            VolumeOperation::RemoveReplica => self.num_replicas > 0,
            _ => true,
        }
    }

    open spec fn applies_to(&self, op: VolumeOperation, post: VolumeSpec) -> bool {
        post == self.applied(op)
    }

    open spec fn with_tx(
        &self,
        rec: Option<OperationRecord<VolumeOperation>>,
        updating: bool,
    ) -> VolumeSpec {
        VolumeSpec { operation: rec, updating, ..*self }
    }

    proof fn lemma_with_tx(
        &self,
        rec1: Option<OperationRecord<VolumeOperation>>,
        u1: bool,
        rec2: Option<OperationRecord<VolumeOperation>>,
        u2: bool,
    ) {
    }

    proof fn lemma_with_tx_admits(
        &self,
        rec: Option<OperationRecord<VolumeOperation>>,
        u: bool,
        op: VolumeOperation,
    ) {
    }

    fn pending_op(&self) -> (r: bool) {
        self.operation.is_some()
    }

    fn take_op(&mut self) -> (r: Option<OperationRecord<VolumeOperation>>) {
        let mut tmp: Option<OperationRecord<VolumeOperation>> = None;
        core::mem::swap(&mut self.operation, &mut tmp);
        tmp
    }

    fn write_tx(&mut self, rec: Option<OperationRecord<VolumeOperation>>, updating: bool) {
        self.operation = rec;
        self.updating = updating;
    }

    fn admits_op(&self, op: &VolumeOperation) -> (r: bool) {
        match op {
            VolumeOperation::AddReplica => self.num_replicas < 255,
            VolumeOperation::RemoveReplica => self.num_replicas > 0,
            _ => true,
        }
    }

    fn resource_kind(&self) -> (k: ResourceKind) {
        ResourceKind::Volume
    }

    fn resource_uuid(&self) -> (u: String) {
        self.uuid.clone()
    }

    fn apply_op(&mut self, op: VolumeOperation) {
        match op {
            VolumeOperation::Share(share) => {
                self.protocol = Protocol::from_volume_share(share);
            },
            VolumeOperation::Unshare => {
                self.protocol = Protocol::Off;
            },
            VolumeOperation::AddReplica => {
                self.num_replicas = self.num_replicas + 1;
            },
            VolumeOperation::RemoveReplica => {
                self.num_replicas = self.num_replicas - 1;
            },
            VolumeOperation::Publish((node, share)) => {
                self.target_node = Some(node);
                self.protocol = match share {
                    Some(s) => Protocol::from_volume_share(s),
                    None => Protocol::Off,
                };
            },
            VolumeOperation::Unpublish => {
                self.target_node = None;
                self.protocol = Protocol::Off;
            },
        }
    }
}

impl VolumeSpec {
    /// The desired specification derived from a creation request: no labels,
    /// unshared, one front-end path, not yet published, lifecycle at
    /// `Creating`, and no operation pending.
    pub fn from_request(request: &CreateVolume) -> (r: VolumeSpec)
        ensures
            r.uuid@ == request.uuid@,
            r.size == request.size,
            r.labels@.len() == 0,
            r.num_replicas == request.replicas as u8,
            r.protocol == Protocol::Off,
            r.num_paths == 1u8,
            r.state == VolumeSpecState::Creating,
            r.target_node is None,
            !r.updating,
            r.operation is None,
    {
        VolumeSpec {
            uuid: request.uuid.clone(),
            size: request.size,
            labels: Vec::new(),
            num_replicas: request.replicas as u8,
            protocol: Protocol::Off,
            num_paths: 1,
            state: SpecState::Creating,
            target_node: None,
            updating: false,
            operation: None,
        }
    }

    /// The idempotent-create check: whether this persisted specification
    /// matches what `from_request` would derive from `request`, ignoring the
    /// lifecycle tag and the transaction fields. A retried create whose
    /// request matches the existing specification is then a no-op, not a
    /// conflict.
    pub open spec fn spec_matches_request(self, request: CreateVolume) -> bool {
        &&& self.uuid@ == request.uuid@
        &&& self.size == request.size
        &&& self.num_replicas == request.replicas as u8
        &&& self.labels@.len() == 0
        &&& self.protocol == Protocol::Off
        &&& self.num_paths == 1
        &&& self.target_node is None
    }

    /// Executable form of [`Self::spec_matches_request`].
    pub fn matches_request(&self, request: &CreateVolume) -> (r: bool)
        ensures
            r == self.spec_matches_request(*request),
    {
        self.uuid == request.uuid && self.size == request.size && self.num_replicas == (
        request.replicas as u8) && self.labels.len() == 0 && self.protocol == Protocol::Off
            && self.num_paths == 1 && self.target_node.is_none()
    }
}

/// The idempotent-create check reads only user-intent fields: changing the
/// lifecycle tag or the transaction fields of a specification never changes
/// which creation requests it matches.
pub proof fn lemma_matches_ignores_transient(
    s: VolumeSpec,
    rec: Option<VolumeOperationState>,
    updating: bool,
    state: VolumeSpecState,
    request: CreateVolume,
)
    ensures
        (VolumeSpec { state, ..s }).with_tx(rec, updating).spec_matches_request(request)
            == s.spec_matches_request(request),
{
}

/// Committing a freshly started `AddReplica` raises the replica count by
/// exactly one, leaves every other desired field alone, and leaves no
/// operation pending.
pub proof fn lemma_add_replica_commit(s: VolumeSpec, post: VolumeSpec)
    requires
        s.spec_op() is None,
        s.num_replicas < 255,
        crate::transaction::committed_rel(
            s.with_tx(
                Some(
                    (OperationRecord {
                        operation: VolumeOperation::AddReplica,
                        result: None,
                    }),
                ),
                true,
            ),
            post,
        ),
    ensures
        post.num_replicas == s.num_replicas + 1,
        post.spec_op() is None,
        !post.spec_updating(),
        post.uuid == s.uuid,
        post.size == s.size,
        post.labels == s.labels,
        post.protocol == s.protocol,
        post.num_paths == s.num_paths,
        post.state == s.state,
        post.target_node == s.target_node,
{
    let started = s.with_tx(
        Some(OperationRecord { operation: VolumeOperation::AddReplica, result: None }),
        true,
    );
    let rec = started.spec_op()->Some_0;
    let mid = choose|mid: VolumeSpec|
        #[trigger] started.with_tx(None, started.spec_updating()).applies_to(rec.operation, mid)
            && post == mid.with_tx(None, false);
}

/// The volume effect table never writes the lifecycle tag: committing any
/// volume operation leaves the lifecycle where it was, and in particular
/// never moves it backwards.
pub proof fn lemma_volume_effects_preserve_lifecycle(
    s: VolumeSpec,
    op: VolumeOperation,
    post: VolumeSpec,
)
    requires
        s.applies_to(op, post),
    ensures
        post.state == s.state,
{
}

/// Runtime state of the volume, as last observed from the data-plane engine;
/// informational only, never consulted nor mutated by the transaction engine.
#[derive(Debug, PartialEq, Eq)]
pub struct VolumeState {
    /// Volume uuid.
    pub uuid: String,
    /// Volume size.
    pub size: u64,
    /// Volume labels.
    pub labels: Vec<String>,
    /// Number of replicas.
    pub num_replicas: u8,
    /// Protocol that the volume is shared over.
    pub protocol: Protocol,
    /// Nexuses that make up the volume.
    pub nexuses: Vec<String>,
    /// Number of front-end paths.
    pub num_paths: u8,
    /// Health of the volume.
    pub status: VolumeStatus,
}

/// Volume information: the last-observed state, when one has been reported,
/// next to the desired specification.
#[derive(Debug, PartialEq, Eq)]
pub struct Volume {
    /// Current state of the volume.
    pub state: Option<VolumeState>,
    /// Desired volume specification.
    pub spec: VolumeSpec,
}

/// Key used by the store to uniquely identify a VolumeSpec structure.
pub struct VolumeSpecKey(String);

impl VolumeSpecKey {
    /// The key of the volume specification with this uuid.
    pub fn new(uuid: &String) -> (r: VolumeSpecKey)
        ensures
            r.spec_key_uuid() == uuid@,
    {
        VolumeSpecKey(uuid.clone())
    }
}

impl ObjectKey for VolumeSpecKey {
    open spec fn spec_key_type(&self) -> StorableObjectType {
        StorableObjectType::VolumeSpec
    }

    closed spec fn spec_key_uuid(&self) -> Seq<char> {
        self.0@
    }

    fn key_type(&self) -> (t: StorableObjectType) {
        StorableObjectType::VolumeSpec
    }

    fn key_uuid(&self) -> (u: String) {
        self.0.clone()
    }
}

impl StorableObject for VolumeSpec {
    type Key = VolumeSpecKey;

    open spec fn spec_key_type(&self) -> StorableObjectType {
        StorableObjectType::VolumeSpec
    }

    open spec fn spec_key_uuid(&self) -> Seq<char> {
        self.uuid@
    }

    fn key(&self) -> (k: VolumeSpecKey) {
        VolumeSpecKey::new(&self.uuid)
    }
}

/// Key used by the store to uniquely identify a VolumeState structure.
pub struct VolumeStateKey(String);

impl VolumeStateKey {
    /// The key of the volume state with this uuid.
    pub fn new(uuid: &String) -> (r: VolumeStateKey)
        ensures
            r.spec_key_uuid() == uuid@,
    {
        VolumeStateKey(uuid.clone())
    }
}

impl ObjectKey for VolumeStateKey {
    open spec fn spec_key_type(&self) -> StorableObjectType {
        StorableObjectType::VolumeState
    }

    closed spec fn spec_key_uuid(&self) -> Seq<char> {
        self.0@
    }

    fn key_type(&self) -> (t: StorableObjectType) {
        StorableObjectType::VolumeState
    }

    fn key_uuid(&self) -> (u: String) {
        self.0.clone()
    }
}

impl StorableObject for VolumeState {
    type Key = VolumeStateKey;

    open spec fn spec_key_type(&self) -> StorableObjectType {
        StorableObjectType::VolumeState
    }

    open spec fn spec_key_uuid(&self) -> Seq<char> {
        self.uuid@
    }

    fn key(&self) -> (k: VolumeStateKey) {
        VolumeStateKey::new(&self.uuid)
    }
}

/// The volume view handed back over the message bus for a specification whose
/// runtime state has not been observed yet.
#[derive(Debug, PartialEq, Eq)]
pub struct VolumeSummary {
    /// Volume uuid.
    pub uuid: String,
    /// Size in bytes.
    pub size: u64,
    /// Health of the volume.
    pub status: VolumeStatus,
    /// Protocol the volume is shared over.
    pub protocol: Protocol,
    /// Nexuses backing the volume.
    pub children: Vec<String>,
}

impl VolumeSummary {
    /// The summary of a specification with no observed state: unknown health
    /// and no children reported yet.
    pub fn from_spec(spec: &VolumeSpec) -> (r: VolumeSummary)
        ensures
            r.uuid@ == spec.uuid@,
            r.size == spec.size,
            r.status == VolumeStatus::Unknown,
            r.protocol == spec.protocol,
            r.children@.len() == 0,
    {
        VolumeSummary {
            uuid: spec.uuid.clone(),
            size: spec.size,
            status: VolumeStatus::Unknown,
            protocol: spec.protocol,
            children: Vec::new(),
        }
    }
}

} // verus!
