//! Nexus types that can be saved to the persistent store, the nexus operation
//! table of the transaction engine — including the child operations that edit
//! the set of backing uris — and the keys nexus records are stored under.

use vstd::prelude::*;
use crate::ids::{NexusShareProtocol, Protocol, ResourceKind, SpecState};
use crate::store::{ObjectKey, StorableObject, StorableObjectType};
use crate::transaction::{OperationRecord, SpecTransaction};

verus! {

/// Health of a nexus as last reported by the data-plane engine.
#[derive(Clone, Copy, Debug, PartialEq, Eq, Structural)]
pub enum NexusStatus {
    Unknown,
    Online,
    Degraded,
    Faulted,
    Shutdown,
}

/// Lifecycle tag of a nexus specification.
pub type NexusSpecState = SpecState<NexusStatus>;

/// Available nexus operations.
#[derive(Debug, PartialEq, Eq)]
pub enum NexusOperation {
    Create,
    Destroy,
    Share(NexusShareProtocol),
    Unshare,
    AddChild(String),
    RemoveChild(String),
    Shutdown,
}

impl Clone for NexusOperation {
    /// Clones preserve the operation exactly.
    fn clone(&self) -> (r: Self)
        ensures
            r == *self,
    {
        match self {
            NexusOperation::Create => NexusOperation::Create,
            NexusOperation::Destroy => NexusOperation::Destroy,
            NexusOperation::Share(p) => NexusOperation::Share(*p),
            NexusOperation::Unshare => NexusOperation::Unshare,
            NexusOperation::AddChild(uri) => NexusOperation::AddChild(uri.clone()),
            NexusOperation::RemoveChild(uri) => NexusOperation::RemoveChild(uri.clone()),
            NexusOperation::Shutdown => NexusOperation::Shutdown,
        }
    }
}

/// Operation state for a nexus spec resource.
pub type NexusOperationState = OperationRecord<NexusOperation>;

/// The uris a sequence of child strings denotes, in order.
pub open spec fn child_views(s: Seq<String>) -> Seq<Seq<char>> {
    Seq::new(s.len(), |i: int| s[i]@)
}

/// The uris of `s` with every occurrence of `uri` removed, in order.
pub open spec fn without_child(s: Seq<String>, uri: Seq<char>) -> Seq<Seq<char>>
    decreases s.len(),
{
    if s.len() == 0 {
        Seq::empty()
    } else {
        let rest = without_child(s.drop_last(), uri);
        if s.last()@ == uri {
            rest
        } else {
            rest.push(s.last()@)
        }
    }
}

/// User specification of a nexus: desired configuration plus the transaction
/// fields driven by the [`SpecTransaction`] engine.
#[derive(Debug, PartialEq, Eq)]
pub struct NexusSpec {
    /// Nexus uuid.
    pub uuid: String,
    /// Name of the nexus.
    pub name: String,
    /// Id of the node the nexus lives on.
    pub node: String,
    /// Uris of the children backing the nexus.
    pub children: Vec<String>,
    /// Size in bytes.
    pub size: u64,
    /// Protocol the nexus should be shared over.
    pub share: Protocol,
    /// Whether the nexus is managed by the control plane.
    pub managed: bool,
    /// State that the nexus should eventually achieve.
    pub state: NexusSpecState,
    /// Whether the nexus was asked to shut down.
    pub shutdown: bool,
    /// Update of the state in progress.
    pub updating: bool,
    /// Record of the operation in progress.
    pub operation: Option<NexusOperationState>,
}

impl NexusSpec {
    /// The effect table for the operations that do not edit the child set:
    /// `Create` and `Destroy` move the lifecycle forward, `Share` and
    /// `Unshare` rewrite the share protocol, `Shutdown` marks the nexus shut
    /// down. `AddChild` and `RemoveChild` are described by
    /// [`SpecTransaction::applies_to`] instead, over the child uris.
    pub open spec fn applied(self, op: NexusOperation) -> NexusSpec {
        match op {
            NexusOperation::Create => NexusSpec {
                state: SpecState::Created(NexusStatus::Online),
                ..self
            },
            NexusOperation::Destroy => NexusSpec { state: SpecState::Deleted, ..self },
            NexusOperation::Share(p) => NexusSpec {
                share: Protocol::spec_from_nexus_share(p),
                ..self
            },
            NexusOperation::Unshare => NexusSpec { share: Protocol::Off, ..self },
            NexusOperation::Shutdown => NexusSpec { shutdown: true, ..self },
            NexusOperation::AddChild(_) => self,
            NexusOperation::RemoveChild(_) => self,
        }
    }
}

impl SpecTransaction<NexusOperation> for NexusSpec {
    open spec fn spec_op(&self) -> Option<OperationRecord<NexusOperation>> {
        self.operation
    }

    open spec fn spec_updating(&self) -> bool {
        self.updating
    }

    open spec fn spec_kind(&self) -> ResourceKind {
        ResourceKind::Nexus
    }

    open spec fn spec_uuid(&self) -> Seq<char> {
        self.uuid@
    }

    /// `Create` is admitted only while the nexus is still being created, so a
    /// committed creation can never move the lifecycle backwards.
    open spec fn admits(&self, op: NexusOperation) -> bool {
        match op {
            NexusOperation::Create => self.state is Creating,
            _ => true,
        }
    }

    /// The child operations pin the uris of the new child set — `AddChild`
    /// appends, `RemoveChild` drops every occurrence — and leave every other
    /// field exactly as it was; the remaining operations rewrite the
    /// specification as [`NexusSpec::applied`] says.
    open spec fn applies_to(&self, op: NexusOperation, post: NexusSpec) -> bool {
        match op {
            NexusOperation::AddChild(uri) => {
                &&& child_views(post.children@) == child_views(self.children@).push(uri@)
                &&& post == (NexusSpec { children: post.children, ..*self })
            },
            NexusOperation::RemoveChild(uri) => {
                &&& child_views(post.children@) == without_child(self.children@, uri@)
                &&& post == (NexusSpec { children: post.children, ..*self })
            },
            _ => post == self.applied(op),
        }
    }

    open spec fn with_tx(
        &self,
        rec: Option<OperationRecord<NexusOperation>>,
        updating: bool,
    ) -> NexusSpec {
        NexusSpec { operation: rec, updating, ..*self }
    }

    proof fn lemma_with_tx(
        &self,
        rec1: Option<OperationRecord<NexusOperation>>,
        u1: bool,
        rec2: Option<OperationRecord<NexusOperation>>,
        u2: bool,
    ) {
    }

    proof fn lemma_with_tx_admits(
        &self,
        rec: Option<OperationRecord<NexusOperation>>,
        u: bool,
        op: NexusOperation,
    ) {
    }

    fn pending_op(&self) -> (r: bool) {
        self.operation.is_some()
    }

    fn take_op(&mut self) -> (r: Option<OperationRecord<NexusOperation>>) {
        let mut tmp: Option<OperationRecord<NexusOperation>> = None;
        core::mem::swap(&mut self.operation, &mut tmp);
        tmp
    }

    fn write_tx(&mut self, rec: Option<OperationRecord<NexusOperation>>, updating: bool) {
        self.operation = rec;
        self.updating = updating;
    }

    fn admits_op(&self, op: &NexusOperation) -> (r: bool) {
        match op {
            NexusOperation::Create => matches!(self.state, SpecState::Creating),
            _ => true,
        }
    }

    fn resource_kind(&self) -> (k: ResourceKind) {
        ResourceKind::Nexus
    }

    fn resource_uuid(&self) -> (u: String) {
        self.uuid.clone()
    }

    fn apply_op(&mut self, op: NexusOperation) {
        match op {
            NexusOperation::Create => {
                self.state = SpecState::Created(NexusStatus::Online);
            },
            NexusOperation::Destroy => {
                self.state = SpecState::Deleted;
            },
            NexusOperation::Share(p) => {
                self.share = Protocol::from_nexus_share(p);
            },
            NexusOperation::Unshare => {
                self.share = Protocol::Off;
            },
            NexusOperation::Shutdown => {
                self.shutdown = true;
            },
            NexusOperation::AddChild(uri) => {
                let ghost u = uri@;
                let ghost s0 = self.children@;
                self.children.push(uri);
                proof {
                    assert(child_views(self.children@) =~= child_views(s0).push(u));
                }
            },
            NexusOperation::RemoveChild(uri) => {
                let ghost u = uri@;
                let ghost s0 = self.children@;
                let n = self.children.len();
                let mut kept: Vec<String> = Vec::new();
                let mut i: usize = 0;
                while i < n
                    invariant
                        i <= n,
                        n == self.children@.len(),
                        self.children@ == s0,
                        uri@ == u,
                        child_views(kept@) =~= without_child(s0.subrange(0, i as int), u),
                    decreases n - i,
                {
                    let ghost kept0 = kept@;
                    let c = &self.children[i];
                    if !(*c == uri) {
                        kept.push(c.clone());
                        proof {
                            assert(child_views(kept@) =~= child_views(kept0).push(s0[i as int]@));
                        }
                    }
                    proof {
                        let pre = s0.subrange(0, i as int);
                        let cur = s0.subrange(0, i + 1 as int);
                        assert(cur.drop_last() =~= pre);
                        assert(cur.last() == s0[i as int]);
                    }
                    i += 1;
                }
                proof {
                    assert(s0.subrange(0, n as int) =~= s0);
                }
                self.children = kept;
            },
        }
    }
}

impl NexusSpec {
    /// The desired specification derived from a creation request: lifecycle
    /// at `Creating`, unshared, not shut down, and no operation pending.
    pub fn from_request(request: &CreateNexus) -> (r: NexusSpec)
        ensures
            r.uuid@ == request.uuid@,
            r.name@ == request.name@,
            r.node@ == request.node@,
            r.children@ == request.children@,
            r.size == request.size,
            r.share == Protocol::Off,
            r.managed == request.managed,
            r.state == NexusSpecState::Creating,
            !r.shutdown,
            !r.updating,
            r.operation is None,
    {
        NexusSpec {
            uuid: request.uuid.clone(),
            name: request.name.clone(),
            node: request.node.clone(),
            children: crate::ids::clone_string_vec(&request.children),
            size: request.size,
            share: Protocol::Off,
            managed: request.managed,
            state: SpecState::Creating,
            shutdown: false,
            updating: false,
            operation: None,
        }
    }
}

/// The nexus effect table only moves the lifecycle tag forward: an admitted
/// `Create` lifts a nexus still being created to `Created`, `Destroy` moves
/// any nexus to `Deleted`, and every other operation leaves the tag alone.
pub proof fn lemma_nexus_effects_advance_lifecycle(
    s: NexusSpec,
    op: NexusOperation,
    post: NexusSpec,
)
    requires
        s.admits(op),
        s.applies_to(op, post),
    ensures
        post.state.stage() >= s.state.stage(),
{
}

/// Key used by the store to uniquely identify a NexusSpec structure.
pub struct NexusSpecKey(String);

impl NexusSpecKey {
    /// The key of the nexus specification with this uuid.
    pub fn new(uuid: &String) -> (r: NexusSpecKey)
        ensures
            r.spec_key_uuid() == uuid@,
    {
        NexusSpecKey(uuid.clone())
    }
}

impl ObjectKey for NexusSpecKey {
    open spec fn spec_key_type(&self) -> StorableObjectType {
        StorableObjectType::NexusSpec
    }

    closed spec fn spec_key_uuid(&self) -> Seq<char> {
        self.0@
    }

    fn key_type(&self) -> (t: StorableObjectType) {
        StorableObjectType::NexusSpec
    }

    fn key_uuid(&self) -> (u: String) {
        self.0.clone()
    }
}

impl StorableObject for NexusSpec {
    type Key = NexusSpecKey;

    open spec fn spec_key_type(&self) -> StorableObjectType {
        StorableObjectType::NexusSpec
    }

    open spec fn spec_key_uuid(&self) -> Seq<char> {
        self.uuid@
    }

    fn key(&self) -> (k: NexusSpecKey) {
        NexusSpecKey::new(&self.uuid)
    }
}

/// Nvme reservation type of a nexus.
#[derive(Clone, Copy, Debug, PartialEq, Eq, Structural)]
pub enum NvmeReservation {
    Reserved,
    WriteExclusive,
    ExclusiveAccess,
    WriteExclusiveRegsOnly,
    ExclusiveAccessRegsOnly,
    WriteExclusiveAllRegs,
    ExclusiveAccessAllRegs,
}

/// How a nexus preempts an existing Nvme reservation.
#[derive(Clone, Copy, Debug, PartialEq, Eq, Structural)]
pub enum NexusNvmePreemption {
    /// Preempt the holder of the reservation key given at publish time.
    ArgKey(Option<u64>),
    /// Preempt the current holder, whichever it is.
    Holder,
}

/// Nvmf configuration a nexus is created with.
#[derive(Clone, Copy, Debug, PartialEq, Eq, Structural)]
pub struct NexusNvmfConfig {
    /// Lowest controller id the nexus may hand out.
    pub min_cntl_id: u16,
    /// Highest controller id the nexus may hand out.
    pub max_cntl_id: u16,
    /// Reservation key of the nexus.
    pub resv_key: u64,
    /// Key used to preempt an existing reservation.
    pub preempt_key: u64,
    /// Reservation type.
    pub resv_type: NvmeReservation,
    /// Preemption policy.
    pub preempt_policy: NexusNvmePreemption,
}

impl NexusNvmfConfig {
    /// The configuration used when the caller gave none: the full controller
    /// id range, key 1, write-exclusive-all-registrants reservation without
    /// preemption — no reservation is ever preempted by default.
    pub fn default_with_no_resv() -> (r: NexusNvmfConfig)
        ensures
            r == NexusNvmfConfig::spec_default_with_no_resv(),
    {
        NexusNvmfConfig {
            min_cntl_id: 1,
            max_cntl_id: 0xffef,
            resv_key: 1,
            preempt_key: 0,
            resv_type: NvmeReservation::WriteExclusiveAllRegs,
            preempt_policy: NexusNvmePreemption::Holder,
        }
    }

    /// What `default_with_no_resv` returns.
    pub open spec fn spec_default_with_no_resv() -> NexusNvmfConfig {
        NexusNvmfConfig {
            min_cntl_id: 1u16,
            max_cntl_id: 0xffefu16,
            resv_key: 1u64,
            preempt_key: 0u64,
            resv_type: NvmeReservation::WriteExclusiveAllRegs,
            preempt_policy: NexusNvmePreemption::Holder,
        }
    }
}

/// State of a child of a nexus.
#[derive(Clone, Copy, Debug, PartialEq, Eq, Structural)]
pub enum ChildState {
    Unknown,
    Online,
    Degraded,
    Faulted,
}

/// Why a child of a nexus is in the state it is in.
#[derive(Clone, Copy, Debug, PartialEq, Eq, Structural)]
pub enum ChildStateReason {
    Unknown,
    Init,
    Closed,
    CantOpen,
    ConfigInvalid,
    RebuildFailed,
    IoError,
    ByClient,
    OutOfSync,
    NoSpace,
    TimedOut,
    AdminCommandFailed,
}

/// A child of a nexus, as last observed from the data-plane engine.
#[derive(Debug, PartialEq, Eq)]
pub struct Child {
    /// Uri of the child.
    pub uri: String,
    /// State of the child.
    pub state: ChildState,
    /// Rebuild progress in percent, when a rebuild is running and the figure
    /// fits.
    pub rebuild_progress: Option<u8>,
    /// Why the child is in its state.
    pub state_reason: ChildStateReason,
    /// When the child faulted, when known.
    pub faulted_at: Option<crate::ids::EpochTime>,
    /// Whether the child keeps an io log, when reported.
    pub has_io_log: Option<bool>,
}

/// Runtime state of a nexus, as last observed from the data-plane engine.
#[derive(Debug, PartialEq, Eq)]
pub struct Nexus {
    /// Id of the node the nexus lives on.
    pub node: String,
    /// Name of the nexus.
    pub name: String,
    /// Nexus uuid.
    pub uuid: String,
    /// Size in bytes.
    pub size: u64,
    /// Health of the nexus.
    pub status: NexusStatus,
    /// Children backing the nexus.
    pub children: Vec<Child>,
    /// Uri the nexus is served under.
    pub device_uri: String,
    /// Number of rebuilds running.
    pub rebuilds: u32,
    /// Protocol the nexus is shared over.
    pub share: Protocol,
    /// Hosts allowed to connect.
    pub allowed_hosts: Vec<crate::replica::HostNqn>,
}

/// Request to destroy a nexus.
#[derive(Debug, PartialEq, Eq)]
pub struct DestroyNexus {
    /// Id of the node the nexus lives on.
    pub node: String,
    /// Nexus uuid.
    pub uuid: String,
}

/// Request to share (publish) a nexus.
#[derive(Debug, PartialEq, Eq)]
pub struct ShareNexus {
    /// Id of the node the nexus lives on.
    pub node: String,
    /// Nexus uuid.
    pub uuid: String,
    /// Encryption key, when the nexus is to be served encrypted.
    pub key: Option<String>,
    /// Protocol to share over.
    pub protocol: NexusShareProtocol,
    /// Hosts allowed to connect.
    pub allowed_hosts: Vec<String>,
}

/// Request to unshare (unpublish) a nexus.
#[derive(Debug, PartialEq, Eq)]
pub struct UnshareNexus {
    /// Id of the node the nexus lives on.
    pub node: String,
    /// Nexus uuid.
    pub uuid: String,
}

/// Request to add a child to a nexus.
#[derive(Debug, PartialEq, Eq)]
pub struct AddNexusChild {
    /// Id of the node the nexus lives on.
    pub node: String,
    /// Nexus uuid.
    pub nexus: String,
    /// Uri of the child to add.
    pub uri: String,
    /// Whether to start rebuilding the child right away.
    pub auto_rebuild: bool,
}

/// Request to remove a child from a nexus.
#[derive(Debug, PartialEq, Eq)]
pub struct RemoveNexusChild {
    /// Id of the node the nexus lives on.
    pub node: String,
    /// Nexus uuid.
    pub nexus: String,
    /// Uri of the child to remove.
    pub uri: String,
}

/// Request to fault a child of a nexus.
#[derive(Debug, PartialEq, Eq)]
pub struct FaultNexusChild {
    /// Id of the node the nexus lives on.
    pub node: String,
    /// Nexus uuid.
    pub nexus: String,
    /// Uri of the child to fault.
    pub uri: String,
}

/// What a child operation asks of a child.
#[derive(Clone, Copy, Debug, PartialEq, Eq, Structural)]
pub enum NexusChildActionKind {
    /// Take the child offline.
    Offline,
    /// Bring the child online.
    Online,
    /// Retire the child, faulting it with an io error.
    Retire,
}

/// Request to act on one child of a nexus.
#[derive(Debug, PartialEq, Eq)]
pub struct NexusChildAction {
    /// Nexus uuid.
    pub nexus: String,
    /// Uri of the child.
    pub uri: String,
    /// What to do with the child.
    pub action: NexusChildActionKind,
}

/// Request to shut a nexus down.
#[derive(Debug, PartialEq, Eq)]
pub struct ShutdownNexus {
    /// Nexus uuid.
    pub uuid: String,
}

/// Request to create a nexus.
#[derive(Debug, PartialEq, Eq)]
pub struct CreateNexus {
    /// Id of the node the nexus should live on.
    pub node: String,
    /// Nexus uuid.
    pub uuid: String,
    /// Name of the nexus; by convention the uuid when the caller gave none.
    pub name: String,
    /// Size in bytes.
    pub size: u64,
    /// Uris of the children backing the nexus.
    pub children: Vec<String>,
    /// Whether the nexus is managed by the control plane.
    pub managed: bool,
    /// Key under which the nexus persists child health information.
    pub nexus_info_key: String,
    /// Nvmf configuration, when the caller chose one.
    pub config: Option<NexusNvmfConfig>,
}

} // verus!
