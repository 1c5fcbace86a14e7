//! Classified errors of the control-plane core. Every fallible entry point of
//! the library reports one of these; transport layers map them onto their own
//! status codes.

use vstd::prelude::*;
use crate::ids::ResourceKind;

verus! {

/// Error taxonomy of the core.
#[derive(Clone, Debug, PartialEq, Eq)]
pub enum SvcError {
    /// A malformed uuid or identifier was reported by the remote engine.
    InvalidUuid { kind: ResourceKind, uuid: String },
    /// The requested resource is absent from the store.
    NotFound { kind: ResourceKind, uuid: String },
    /// An operation was started while another one was still pending.
    OperationConflict { kind: ResourceKind, uuid: String },
    /// A request to the remote data-plane engine failed.
    RemoteRequestFailed { kind: ResourceKind, request: String },
    /// A payload was malformed or incomplete, or a request was not applicable
    /// to the resource in its current desired state.
    InvalidArguments,
    /// The persistence backend is unreachable.
    StoreUnavailable,
}

impl SvcError {
    /// A short, stable label for the error variant.
    pub fn label(&self) -> (r: &'static str)
        ensures
            r@ == self.spec_label(),
    {
        match self {
            SvcError::InvalidUuid { .. } => "invalid uuid",
            SvcError::NotFound { .. } => "not found",
            SvcError::OperationConflict { .. } => "operation conflict",
            SvcError::RemoteRequestFailed { .. } => "remote request failed",
            SvcError::InvalidArguments => "invalid arguments",
            SvcError::StoreUnavailable => "store unavailable",
        }
    }

    /// What `label` returns for each variant.
    pub open spec fn spec_label(&self) -> Seq<char> {
        match self {
            SvcError::InvalidUuid { .. } => "invalid uuid"@,
            SvcError::NotFound { .. } => "not found"@,
            SvcError::OperationConflict { .. } => "operation conflict"@,
            SvcError::RemoteRequestFailed { .. } => "remote request failed"@,
            SvcError::InvalidArguments => "invalid arguments"@,
            SvcError::StoreUnavailable => "store unavailable"@,
        }
    }
}

} // verus!
