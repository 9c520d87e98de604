//! How a journal is replayed piece by piece.

use vstd::prelude::*;
use crate::model::StoreState;
use crate::mutation::MutationView;

verus! {

/// A journal that ends in `mutation` is replayed by replaying what comes
/// before it and applying `mutation`.
pub proof fn replay_push(store: StoreState, journal: Seq<MutationView>, mutation: MutationView)
    ensures
        store.replay(journal.push(mutation)) == store.replay(journal).apply(mutation),
{
    assert(journal.push(mutation).drop_last() =~= journal);
}

/// Two journals in a row are replayed one after the other.
pub proof fn replay_concat(store: StoreState, first: Seq<MutationView>, second: Seq<MutationView>)
    ensures
        store.replay(first + second) == store.replay(first).replay(second),
    decreases second.len(),
{
    if second.len() == 0 {
        assert(first + second =~= first);
    } else {
        replay_concat(store, first, second.drop_last());
        assert((first + second).drop_last() =~= first + second.drop_last());
        assert((first + second).last() == second.last());
    }
}

} // verus!
