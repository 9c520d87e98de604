//! The journal of a store: the mutations that the engine has acknowledged
//! since the store was opened, oldest first, with the begin, the commit and
//! the rollback of each transaction among them.
//!
//! An entry is made of a receipt and of nothing else.  Receipts are made
//! where the engine acknowledges a call, so a journal cannot gain an entry
//! that the engine has not seen.

use vstd::prelude::*;
use crate::engine::{Receipt, ReceiptView};
use crate::mutation::{MutationKind, MutationView};

verus! {

/// The journal of a store.
pub struct Journal {
    entries: Ghost<Seq<MutationView>>,
}

impl View for Journal {
    type V = Seq<MutationView>;

    closed spec fn view(&self) -> Seq<MutationView> {
        self.entries@
    }
}

/// The entry that the receipt of a statement makes, read as a mutation of
/// the kind `kind`.
pub open spec fn statement_entry(receipt: ReceiptView, kind: MutationKind) -> MutationView {
    MutationView { kind, params: receipt->params }
}

impl Journal {
    /// The journal of a store that was just opened.
    pub fn new() -> (journal: Journal)
        ensures
            journal@ == Seq::<MutationView>::empty(),
    {
        Journal { entries: Ghost(Seq::empty()) }
    }

    /// Enters the statement that `receipt` is a receipt of, as a mutation of
    /// the kind whose text the statement has, and gives the engine's count
    /// of changed rows.
    pub fn record(&mut self, receipt: Receipt<'_>, kind: MutationKind) -> (changed: usize)
        requires
            receipt@ is Statement,
            receipt@->text == kind.text(),
        ensures
            final(self)@ == old(self)@.push(statement_entry(receipt@, kind)),
    {
        self.entries = Ghost(self.entries@.push(statement_entry(receipt@, kind)));
        receipt.changed()
    }

    /// Enters the begin of a transaction.
    pub fn record_begin(&mut self, receipt: Receipt<'_>)
        requires
            receipt@ is Began,
        ensures
            final(self)@ == old(self)@.push(MutationView::bare(MutationKind::BeginTransaction)),
    {
        self.entries = Ghost(
            self.entries@.push(MutationView::bare(MutationKind::BeginTransaction)),
        );
    }

    /// Enters the commit of the open transaction.
    pub fn record_commit(&mut self, receipt: Receipt<'_>)
        requires
            receipt@ is Committed,
        ensures
            final(self)@ == old(self)@.push(MutationView::bare(MutationKind::CommitTransaction)),
    {
        self.entries = Ghost(
            self.entries@.push(MutationView::bare(MutationKind::CommitTransaction)),
        );
    }

    /// Enters the rollback of the open transaction.
    pub fn record_rollback(&mut self, receipt: Receipt<'_>)
        requires
            receipt@ is RolledBack,
        ensures
            final(self)@ == old(self)@.push(
                MutationView::bare(MutationKind::RollBackTransaction),
            ),
    {
        self.entries = Ghost(
            self.entries@.push(MutationView::bare(MutationKind::RollBackTransaction)),
        );
    }
}

} // verus!
