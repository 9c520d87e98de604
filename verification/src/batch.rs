//! The course of a batch: what to do next inside its transaction.
//!
//! A batch runs its updates in order inside one transaction.  After each
//! answer of the engine the batch either goes on with the next update,
//! commits, or rolls back; which of the three is decided here.

use vstd::prelude::*;
use crate::mutation::{MutationKind, MutationView};
use crate::step::{update_steps, Step};

verus! {

/// The mark of a transaction that begins.
pub open spec fn begun() -> MutationView {
    MutationView::bare(MutationKind::BeginTransaction)
}

/// The mark of a transaction that is committed.
pub open spec fn committed() -> MutationView {
    MutationView::bare(MutationKind::CommitTransaction)
}

/// The mark of a transaction that is rolled back.
pub open spec fn rolled_back() -> MutationView {
    MutationView::bare(MutationKind::RollBackTransaction)
}

/// What a batch that went through leaves in the journal: the begin of its
/// transaction, the update of each step in the order of the batch, and the
/// commit.
pub open spec fn committed_batch(steps: Seq<Step>) -> Seq<MutationView> {
    (seq![begun()] + update_steps(steps)).push(committed())
}

/// What a batch that was given up leaves in the journal: the begin of its
/// transaction, the updates that were acknowledged, and the rollback where
/// the engine acknowledged it.  No commit is among them.
pub open spec fn abandoned_batch(steps: Seq<Step>, acknowledged: int, undone: bool) -> Seq<
    MutationView,
> {
    let open = seq![begun()] + update_steps(steps).take(acknowledged);
    if undone {
        open.push(rolled_back())
    } else {
        open
    }
}

/// What a batch does next.
#[derive(Debug, Clone, Copy, PartialEq, Eq)]
pub enum BatchAction {
    /// Hand the update of this place in the batch to the engine.
    Update(usize),
    /// Every update was acknowledged: commit the transaction.
    Commit,
    /// An update was refused: roll the transaction back.
    RollBack,
}

/// What a batch of `total` updates does next, once `acknowledged` of them
/// were acknowledged and `refused` says whether the one after them was
/// refused: it rolls back after a refusal, goes on while updates are left,
/// and commits after the last.
pub open spec fn next_in_batch(acknowledged: usize, total: usize, refused: bool) -> BatchAction {
    if refused {
        BatchAction::RollBack
    } else if acknowledged < total {
        BatchAction::Update(acknowledged)
    } else {
        BatchAction::Commit
    }
}

/// What a batch of `total` updates does next, once `acknowledged` of them
/// were acknowledged and `refused` says whether the one after them was
/// refused.
pub fn batch_action(acknowledged: usize, total: usize, refused: bool) -> (action: BatchAction)
    ensures
        action == next_in_batch(acknowledged, total, refused),
{
    if refused {
        BatchAction::RollBack
    } else if acknowledged < total {
        BatchAction::Update(acknowledged)
    } else {
        BatchAction::Commit
    }
}

} // verus!
