//! Pool types that can be saved to the persistent store, the pool operation
//! table of the transaction engine, and the transport requests a caller hands
//! to the core for pools.

use vstd::prelude::*;
use crate::ids::{clone_string_vec, ResourceKind, SpecState};
use crate::store::{ObjectKey, StorableObject, StorableObjectType};
use crate::transaction::{OperationRecord, SpecTransaction};

verus! {

/// Health of a pool as last reported by the data-plane engine.
#[derive(Clone, Copy, Debug, PartialEq, Eq, Structural)]
pub enum PoolStatus {
    Unknown,
    Online,
    Degraded,
    Faulted,
}

/// Lifecycle tag of a pool specification.
pub type PoolSpecState = SpecState<PoolStatus>;

/// Request to create a pool on a node from a set of disks.
#[derive(Clone, Debug, PartialEq, Eq)]
pub struct CreatePool {
    /// Id of the node the pool lives on.
    pub node: String,
    /// Name of the pool.
    pub id: String,
    /// Disk devices backing the pool.
    pub disks: Vec<String>,
}

/// Request to destroy a pool.
#[derive(Clone, Debug, PartialEq, Eq)]
pub struct DestroyPool {
    /// Id of the node the pool lives on.
    pub node: String,
    /// Name of the pool.
    pub id: String,
}

/// Request to import an already existing pool.
#[derive(Clone, Debug, PartialEq, Eq)]
pub struct ImportPool {
    /// Id of the node the pool lives on.
    pub node: String,
    /// Name of the pool.
    pub id: String,
    /// Disk devices backing the pool.
    pub disks: Vec<String>,
}

/// Available pool operations.
#[derive(Clone, Copy, Debug, PartialEq, Eq, Structural)]
pub enum PoolOperation {
    Create,
    Destroy,
}

/// Operation state for a pool spec resource.
pub type PoolOperationState = OperationRecord<PoolOperation>;

/// User specification of a pool: desired configuration plus the transaction
/// fields driven by the [`SpecTransaction`] engine.
#[derive(Debug, PartialEq, Eq)]
pub struct PoolSpec {
    /// Id of the node the pool lives on.
    pub node: String,
    /// Name of the pool, which also keys it in the store.
    pub id: String,
    /// Disk devices backing the pool.
    pub disks: Vec<String>,
    /// State that the pool should eventually achieve.
    pub state: PoolSpecState,
    /// Update of the state in progress.
    pub updating: bool,
    /// Record of the operation in progress.
    pub operation: Option<PoolOperationState>,
}

impl PoolSpec {
    /// The pool-specific effect table: committing `Create` moves the
    /// lifecycle forward to `Created` with the pool online; committing
    /// `Destroy` moves it to `Deleted`. Both only advance the lifecycle.
    pub open spec fn applied(self, op: PoolOperation) -> PoolSpec {
        match op {
            PoolOperation::Create => PoolSpec {
                state: SpecState::Created(PoolStatus::Online),
                ..self
            },
            PoolOperation::Destroy => PoolSpec { state: SpecState::Deleted, ..self },
        }
    }
}

impl SpecTransaction<PoolOperation> for PoolSpec {
    open spec fn spec_op(&self) -> Option<OperationRecord<PoolOperation>> {
        self.operation
    }

    open spec fn spec_updating(&self) -> bool {
        self.updating
    }

    open spec fn spec_kind(&self) -> ResourceKind {
        ResourceKind::Pool
    }

    open spec fn spec_uuid(&self) -> Seq<char> {
        self.id@
    }

    /// `Create` is admitted only while the pool is still being created, so a
    /// committed creation can never move the lifecycle backwards.
    open spec fn admits(&self, op: PoolOperation) -> bool {
        match op {
            PoolOperation::Create => self.state is Creating,
            PoolOperation::Destroy => true,
        }
    }

    open spec fn applies_to(&self, op: PoolOperation, post: PoolSpec) -> bool {
        post == self.applied(op)
    }

    open spec fn with_tx(
        &self,
        rec: Option<OperationRecord<PoolOperation>>,
        updating: bool,
    ) -> PoolSpec {
        PoolSpec { operation: rec, updating, ..*self }
    }

    proof fn lemma_with_tx(
        &self,
        rec1: Option<OperationRecord<PoolOperation>>,
        u1: bool,
        rec2: Option<OperationRecord<PoolOperation>>,
        u2: bool,
    ) {
    }

    proof fn lemma_with_tx_admits(
        &self,
        rec: Option<OperationRecord<PoolOperation>>,
        u: bool,
        op: PoolOperation,
    ) {
    }

    fn pending_op(&self) -> (r: bool) {
        self.operation.is_some()
    }

    fn take_op(&mut self) -> (r: Option<OperationRecord<PoolOperation>>) {
        let mut tmp: Option<OperationRecord<PoolOperation>> = None;
        core::mem::swap(&mut self.operation, &mut tmp);
        tmp
    }

    fn write_tx(&mut self, rec: Option<OperationRecord<PoolOperation>>, updating: bool) {
        self.operation = rec;
        self.updating = updating;
    }

    fn admits_op(&self, op: &PoolOperation) -> (r: bool) {
        match op {
            PoolOperation::Create => matches!(self.state, SpecState::Creating),
            PoolOperation::Destroy => true,
        }
    }

    fn resource_kind(&self) -> (k: ResourceKind) {
        ResourceKind::Pool
    }

    fn resource_uuid(&self) -> (u: String) {
        self.id.clone()
    }

    fn apply_op(&mut self, op: PoolOperation) {
        match op {
            PoolOperation::Create => {
                self.state = SpecState::Created(PoolStatus::Online);
            },
            PoolOperation::Destroy => {
                self.state = SpecState::Deleted;
            },
        }
    }
}

impl PoolSpec {
    /// The desired specification derived from a creation request: lifecycle
    /// at `Creating` and no operation pending.
    pub fn from_request(request: &CreatePool) -> (r: PoolSpec)
        ensures
            r.node@ == request.node@,
            r.id@ == request.id@,
            r.disks@ == request.disks@,
            r.state == PoolSpecState::Creating,
            !r.updating,
            r.operation is None,
    {
        PoolSpec {
            node: request.node.clone(),
            id: request.id.clone(),
            disks: clone_string_vec(&request.disks),
            state: SpecState::Creating,
            updating: false,
            operation: None,
        }
    }
}

/// The pool effect table only moves the lifecycle tag forward: an admitted
/// `Create` lifts a pool still being created to `Created`, and `Destroy`
/// moves any pool to `Deleted`.
pub proof fn lemma_pool_effects_advance_lifecycle(s: PoolSpec, op: PoolOperation, post: PoolSpec)
    requires
        s.admits(op),
        s.applies_to(op, post),
    ensures
        post.state.stage() >= s.state.stage(),
{
}

/// Key used by the store to uniquely identify a PoolSpec structure.
pub struct PoolSpecKey(String);

impl PoolSpecKey {
    /// The key of the pool specification with this pool name.
    pub fn new(id: &String) -> (r: PoolSpecKey)
        ensures
            r.spec_key_uuid() == id@,
    {
        PoolSpecKey(id.clone())
    }
}

impl ObjectKey for PoolSpecKey {
    open spec fn spec_key_type(&self) -> StorableObjectType {
        StorableObjectType::PoolSpec
    }

    closed spec fn spec_key_uuid(&self) -> Seq<char> {
        self.0@
    }

    fn key_type(&self) -> (t: StorableObjectType) {
        StorableObjectType::PoolSpec
    }

    fn key_uuid(&self) -> (u: String) {
        self.0.clone()
    }
}

impl StorableObject for PoolSpec {
    type Key = PoolSpecKey;

    open spec fn spec_key_type(&self) -> StorableObjectType {
        StorableObjectType::PoolSpec
    }

    open spec fn spec_key_uuid(&self) -> Seq<char> {
        self.id@
    }

    fn key(&self) -> (k: PoolSpecKey) {
        PoolSpecKey::new(&self.id)
    }
}

/// Runtime state of a pool, as last observed from the data-plane engine.
#[derive(Debug, PartialEq, Eq)]
pub struct PoolState {
    /// Id of the node the pool lives on.
    pub node: String,
    /// Name of the pool.
    pub id: String,
    /// Disk devices backing the pool.
    pub disks: Vec<String>,
    /// Total capacity in bytes.
    pub capacity: u64,
    /// Bytes in use.
    pub used: u64,
    /// Health of the pool.
    pub status: PoolStatus,
    /// Bytes committed to replicas, when the engine reports a meaningful
    /// figure.
    pub committed: Option<u64>,
}

/// Key used by the store to uniquely identify a PoolState structure.
pub struct PoolStateKey(String);

impl PoolStateKey {
    /// The key of the pool state with this pool name.
    pub fn new(id: &String) -> (r: PoolStateKey)
        ensures
            r.spec_key_uuid() == id@,
    {
        PoolStateKey(id.clone())
    }
}

impl ObjectKey for PoolStateKey {
    open spec fn spec_key_type(&self) -> StorableObjectType {
        StorableObjectType::PoolState
    }

    closed spec fn spec_key_uuid(&self) -> Seq<char> {
        self.0@
    }

    fn key_type(&self) -> (t: StorableObjectType) {
        StorableObjectType::PoolState
    }

    fn key_uuid(&self) -> (u: String) {
        self.0.clone()
    }
}

impl StorableObject for PoolState {
    type Key = PoolStateKey;

    open spec fn spec_key_type(&self) -> StorableObjectType {
        StorableObjectType::PoolState
    }

    open spec fn spec_key_uuid(&self) -> Seq<char> {
        self.id@
    }

    fn key(&self) -> (k: PoolStateKey) {
        PoolStateKey::new(&self.id)
    }
}

} // verus!
