//! The Spec/Operation transaction engine: one generic state machine over a
//! per-resource-kind operation enum and effect table. A persisted
//! specification carries at most one in-flight [`OperationRecord`]; the engine
//! starts, commits and clears that record with deterministic semantics, so
//! that multi-step remote workflows stay idempotent and recoverable.

use vstd::prelude::*;
use crate::error::SvcError;
use crate::ids::ResourceKind;

verus! {

/// The at-most-one in-flight transaction marker attached to a specification.
#[derive(Debug, PartialEq, Eq)]
pub struct OperationRecord<Op> {
    /// The operation being carried out.
    pub operation: Op,
    /// Outcome of the remote attempt, once one has been recorded;
    /// `None` after a reload means the prior attempt's outcome is unknown.
    pub result: Option<bool>,
}

/// The transaction state machine, implemented once and instantiated by every
/// resource kind. An implementation supplies the storage of the transaction
/// fields (`take_op`, `write_tx`, `with_tx`), the kind-specific effect table
/// (`apply_op`, `applies_to`) and its admissibility guard (`admits_op`,
/// `admits`); the engine methods `start_op`, `commit_op`, `clear_op` and
/// `set_op_result` are provided here and verified once, generically.
pub trait SpecTransaction<Op>: Sized {
    /// The pending operation record.
    spec fn spec_op(&self) -> Option<OperationRecord<Op>>;

    /// The transient flag that is true while an operation is outstanding.
    spec fn spec_updating(&self) -> bool;

    /// The resource kind named in reported errors.
    spec fn spec_kind(&self) -> ResourceKind;

    /// The resource uuid named in reported errors.
    spec fn spec_uuid(&self) -> Seq<char>;

    /// Whether the desired fields admit starting `op`; operations whose
    /// committed effect would leave a counter out of range are refused here,
    /// at `start_op`, never saturated at commit.
    spec fn admits(&self, op: Op) -> bool;

    /// How the kind-specific effect table rewrites the desired fields:
    /// `post` is exactly `self` with the effect of `op` applied. Every
    /// implementation pins `post` completely.
    spec fn applies_to(&self, op: Op, post: Self) -> bool;

    /// The same value with the transaction fields replaced.
    spec fn with_tx(&self, rec: Option<OperationRecord<Op>>, updating: bool) -> Self;

    /// Laws of `with_tx`: it writes exactly the two transaction fields and
    /// leaves everything else alone.
    proof fn lemma_with_tx(
        &self,
        rec1: Option<OperationRecord<Op>>,
        u1: bool,
        rec2: Option<OperationRecord<Op>>,
        u2: bool,
    )
        ensures
            self.with_tx(rec1, u1).spec_op() == rec1,
            self.with_tx(rec1, u1).spec_updating() == u1,
            self.with_tx(self.spec_op(), self.spec_updating()) == *self,
            self.with_tx(rec1, u1).with_tx(rec2, u2) == self.with_tx(rec2, u2),
            self.with_tx(rec1, u1).spec_kind() == self.spec_kind(),
            self.with_tx(rec1, u1).spec_uuid() == self.spec_uuid(),
    ;

    /// Law: admissibility reads only the desired fields, so rewriting the
    /// transaction fields does not change it.
    proof fn lemma_with_tx_admits(&self, rec: Option<OperationRecord<Op>>, u: bool, op: Op)
        ensures
            self.with_tx(rec, u).admits(op) == self.admits(op),
    ;

    /// True iff an operation record is pending.
    fn pending_op(&self) -> (r: bool)
        ensures
            r == (self.spec_op() is Some),
    ;

    /// Removes and returns the operation record; the updating flag is left
    /// as it was.
    fn take_op(&mut self) -> (r: Option<OperationRecord<Op>>)
        ensures
            r == old(self).spec_op(),
            *final(self) == old(self).with_tx(None, old(self).spec_updating()),
    ;

    /// Writes the transaction fields.
    fn write_tx(&mut self, rec: Option<OperationRecord<Op>>, updating: bool)
        ensures
            *final(self) == old(self).with_tx(rec, updating),
    ;

    /// Whether the desired fields admit starting `op`.
    fn admits_op(&self, op: &Op) -> (r: bool)
        ensures
            r == self.admits(*op),
    ;

    /// The resource kind named in reported errors.
    fn resource_kind(&self) -> (k: ResourceKind)
        ensures
            k == self.spec_kind(),
    ;

    /// The resource uuid named in reported errors.
    fn resource_uuid(&self) -> (u: String)
        ensures
            u@ == self.spec_uuid(),
    ;

    /// Applies the kind-specific effect table for `op` to the desired fields.
    fn apply_op(&mut self, op: Op)
        requires
            old(self).admits(op),
        ensures
            old(self).applies_to(op, *final(self)),
    ;

    /// Starts an operation: refused with `OperationConflict` while another
    /// record is pending, and with `InvalidArguments` when the desired fields
    /// do not admit `op`; otherwise stores the record with no result yet and
    /// raises the updating flag. The record is written before any remote call
    /// is issued, which is what makes a crash mid-operation recoverable.
    fn start_op(&mut self, operation: Op) -> (r: Result<(), SvcError>)
        ensures
            old(self).spec_op() is Some ==> {
                &&& *final(self) == *old(self)
                &&& r matches Err(e) && e matches SvcError::OperationConflict { kind, uuid }
                    && kind == old(self).spec_kind() && uuid@ == old(self).spec_uuid()
            },
            old(self).spec_op() is None && !old(self).admits(operation) ==> {
                &&& *final(self) == *old(self)
                &&& r matches Err(e) && e is InvalidArguments
            },
            old(self).spec_op() is None && old(self).admits(operation) ==> {
                &&& r is Ok
                &&& *final(self) == old(self).with_tx(
                    Some((OperationRecord { operation: operation, result: None })),
                    true,
                )
            },
    {
        if self.pending_op() {
            Err(
                SvcError::OperationConflict {
                    kind: self.resource_kind(),
                    uuid: self.resource_uuid(),
                },
            )
        } else if !self.admits_op(&operation) {
            Err(SvcError::InvalidArguments)
        } else {
            self.write_tx(Some(OperationRecord { operation, result: None }), true);
            Ok(())
        }
    }

    /// Commits the pending operation: applies the kind-specific effect table
    /// to the desired fields, then drops the record and the updating flag.
    /// With no record pending it only resets the transaction fields, so a
    /// repeated commit is a no-op.
    fn commit_op(&mut self)
        requires
            (match old(self).spec_op() {
                Some(rec) => old(self).admits(rec.operation),
                None => true,
            }),
        ensures
            (match old(self).spec_op() {
                Some(rec) => exists|mid: Self|
                    #[trigger] old(self).with_tx(None, old(self).spec_updating()).applies_to(
                        rec.operation,
                        mid,
                    ) && *final(self) == mid.with_tx(None, false),
                None => *final(self) == old(self).with_tx(None, false),
            }),
    {
        proof {
            old(self).lemma_with_tx(None, old(self).spec_updating(), None, false);
        }
        let rec = self.take_op();
        match rec {
            Some(r) => {
                proof {
                    old(self).lemma_with_tx_admits(
                        None,
                        old(self).spec_updating(),
                        r.operation,
                    );
                }
                self.apply_op(r.operation);
                self.write_tx(None, false);
            },
            None => {
                self.write_tx(None, false);
            },
        }
    }

    /// Unconditionally drops the operation record and the updating flag,
    /// whether or not an outcome was ever recorded.
    fn clear_op(&mut self)
        ensures
            *final(self) == old(self).with_tx(None, false),
    {
        self.write_tx(None, false);
    }

    /// Records the outcome of the remote attempt on the pending record and
    /// drops the updating flag; the record itself is kept, so recovery can
    /// still see which operation was in flight.
    fn set_op_result(&mut self, result: bool)
        ensures
            (match old(self).spec_op() {
                Some(rec) => *final(self) == old(self).with_tx(
                    Some((OperationRecord { operation: rec.operation, result: Some(result) })),
                    false,
                ),
                None => *final(self) == old(self).with_tx(None, false),
            }),
    {
        proof {
            old(self).lemma_with_tx(None, old(self).spec_updating(), None, false);
        }
        let rec = self.take_op();
        match rec {
            Some(r) => {
                proof {
                    old(self).lemma_with_tx(
                        None,
                        old(self).spec_updating(),
                        Some(OperationRecord { operation: r.operation, result: Some(result) }),
                        false,
                    );
                }
                self.write_tx(
                    Some(OperationRecord { operation: r.operation, result: Some(result) }),
                    false,
                );
            },
            None => {
                self.write_tx(None, false);
            },
        }
    }
}

/// The well-formedness every specification keeps between engine calls: a
/// pending record, if any, is admissible in the current desired fields.
/// `start_op` refuses inadmissible operations, so it establishes this, and no
/// engine method breaks it.
pub open spec fn pending_admissible<Op, T: SpecTransaction<Op>>(s: T) -> bool {
    match s.spec_op() {
        Some(rec) => s.admits(rec.operation),
        None => true,
    }
}

/// Relation between a specification and its value after `commit_op`: with a
/// record pending, the effect table is applied to the desired fields and the
/// transaction fields are reset; with none, only the transaction fields are
/// reset.
pub open spec fn committed_rel<Op, T: SpecTransaction<Op>>(pre: T, post: T) -> bool {
    match pre.spec_op() {
        Some(rec) => exists|mid: T|
            #[trigger] pre.with_tx(None, pre.spec_updating()).applies_to(rec.operation, mid)
                && post == mid.with_tx(None, false),
        None => post == pre.with_tx(None, false),
    }
}

/// A freshly started record is pending and marks the specification as
/// updating; by `start_op`'s contract, a second `start_op` before the record
/// is cleared therefore lands in the `OperationConflict` branch.
pub proof fn lemma_started_is_pending<Op, T: SpecTransaction<Op>>(s: T, op: Op)
    ensures
        s.with_tx(Some((OperationRecord { operation: op, result: None })), true).spec_op()
            == Some((OperationRecord { operation: op, result: None })),
        s.with_tx(Some((OperationRecord { operation: op, result: None })), true).spec_updating(),
{
    s.lemma_with_tx(Some(OperationRecord { operation: op, result: None }), true, None, false);
}

/// Starting an operation, recording a failed outcome and clearing the record
/// puts the specification back exactly where it was before `start_op`: the
/// desired fields never saw the pending delta.
pub proof fn lemma_failed_op_round_trip<Op, T: SpecTransaction<Op>>(s: T, op: Op, outcome: bool)
    requires
        s.spec_op() is None,
        !s.spec_updating(),
    ensures
        ({
            let started = s.with_tx(Some((OperationRecord { operation: op, result: None })), true);
            let resulted = started.with_tx(
                Some((OperationRecord { operation: op, result: Some(outcome) })),
                false,
            );
            resulted.with_tx(None, false) == s
        }),
{
    let rec0 = Some(OperationRecord { operation: op, result: None });
    let rec1 = Some(OperationRecord { operation: op, result: Some(outcome) });
    s.lemma_with_tx(rec0, true, rec1, false);
    s.lemma_with_tx(rec1, false, None, false);
    s.lemma_with_tx(None, false, None, false);
}

/// After any commit, no record is pending and the updating flag is down, so
/// the value is a fixed point of clearing: by `commit_op`'s contract, a second
/// commit with no intervening `start_op` changes nothing.
pub proof fn lemma_commit_idempotent<Op, T: SpecTransaction<Op>>(pre: T, post: T)
    requires
        committed_rel(pre, post),
    ensures
        post.spec_op() is None,
        !post.spec_updating(),
        committed_rel(post, post),
{
    match pre.spec_op() {
        Some(rec) => {
            let mid = choose|mid: T|
                #[trigger] pre.with_tx(None, pre.spec_updating()).applies_to(rec.operation, mid)
                    && post == mid.with_tx(None, false);
            mid.lemma_with_tx(None, false, None, false);
            post.lemma_with_tx(None, false, None, false);
        },
        None => {
            pre.lemma_with_tx(None, false, None, false);
            post.lemma_with_tx(None, false, None, false);
        },
    }
}

} // verus!
