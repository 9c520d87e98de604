//! Batches of updates: what a batch that went through does to the steps,
//! and that a batch that was given up counts for nothing.

use vstd::prelude::*;
use crate::batch::{abandoned_batch, begun, committed, committed_batch, rolled_back};
use crate::encoding::{flag_number, or_empty};
use crate::laws::replay::{replay_concat, replay_push};
use crate::model::{updated_step, StoreState};
use crate::mutation::MutationView;
use crate::step::{update_step, update_steps, Step};

verus! {

/// Whether two tables of steps hold the same steps in the same places: row
/// for row the same id, the same project and the same time of creation.
pub open spec fn same_steps(before: StoreState, after: StoreState) -> bool {
    &&& after.steps.len() == before.steps.len()
    &&& forall|i: int|
        0 <= i < before.steps.len() ==> {
            &&& (#[trigger] after.steps[i]).id == before.steps[i].id
            &&& after.steps[i].project_id == before.steps[i].project_id
            &&& after.steps[i].created_at == before.steps[i].created_at
        }
}

/// Update in a batch: the updates of a batch add no step and remove none,
/// move no step to another project, and touch nothing but steps.
pub proof fn batch_keeps_every_step(store: StoreState, steps: Seq<Step>)
    ensures
        same_steps(store, store.replay(update_steps(steps))),
        store.replay(update_steps(steps)).projects == store.projects,
        store.replay(update_steps(steps)).notes == store.notes,
        store.replay(update_steps(steps)).attachments == store.attachments,
        store.replay(update_steps(steps)).ledger == store.ledger,
    decreases steps.len(),
{
    if steps.len() > 0 {
        let earlier = steps.drop_last();
        batch_keeps_every_step(store, earlier);
        assert(update_steps(steps) =~= update_steps(earlier).push(update_step(steps.last()@)));
        replay_push(store, update_steps(earlier), update_step(steps.last()@));
    }
}

/// A step that no update of a batch names stays as it was.
proof fn unnamed_step_stays(store: StoreState, steps: Seq<Step>, i: int)
    requires
        0 <= i < store.steps.len(),
        forall|k: int| 0 <= k < steps.len() ==> (#[trigger] steps[k])@.id != store.steps[i].id,
    ensures
        store.replay(update_steps(steps)).steps.len() == store.steps.len(),
        store.replay(update_steps(steps)).steps[i] == store.steps[i],
    decreases steps.len(),
{
    if steps.len() > 0 {
        let earlier = steps.drop_last();
        assert(forall|k: int| 0 <= k < earlier.len() ==> earlier[k] == steps[k]);
        unnamed_step_stays(store, earlier, i);
        assert(update_steps(steps) =~= update_steps(earlier).push(update_step(steps.last()@)));
        replay_push(store, update_steps(earlier), update_step(steps.last()@));
        assert(steps.last() == steps[steps.len() - 1]);
    }
}

/// Update in a batch: a stored step that the batch names once holds, after
/// the batch, the six fields that the batch gives for it: title,
/// description, plain text, order index, completion and time of update.
pub proof fn batch_sets_what_it_names(store: StoreState, steps: Seq<Step>, named: int, i: int)
    requires
        0 <= named < steps.len(),
        forall|k: int|
            0 <= k < steps.len() && k != named ==> (#[trigger] steps[k])@.id != steps[named]@.id,
        0 <= i < store.steps.len(),
        store.steps[i].id == steps[named]@.id,
    ensures
        store.replay(update_steps(steps)).steps.len() == store.steps.len(),
        store.replay(update_steps(steps)).steps[i] == updated_step(
            store.steps[i],
            update_step(steps[named]@).params,
        ),
        store.replay(update_steps(steps)).steps[i].title == steps[named]@.title,
        store.replay(update_steps(steps)).steps[i].description == steps[named]@.description,
        store.replay(update_steps(steps)).steps[i].plain_text == Some(
            or_empty(steps[named]@.plain_text),
        ),
        store.replay(update_steps(steps)).steps[i].order_index == steps[named]@.order_index,
        store.replay(update_steps(steps)).steps[i].completed == flag_number(
            steps[named]@.completed,
        ),
        store.replay(update_steps(steps)).steps[i].updated_at == steps[named]@.updated_at,
{
    let before = steps.take(named);
    let behind = steps.skip(named + 1);
    let update = update_step(steps[named]@);
    assert(update_steps(steps) =~= update_steps(before).push(update) + update_steps(behind));
    replay_concat(store, update_steps(before).push(update), update_steps(behind));
    replay_push(store, update_steps(before), update);
    unnamed_step_stays(store, before, i);
    let reached = store.replay(update_steps(before));
    let set = reached.apply(update);
    assert(set.steps[i] == updated_step(store.steps[i], update.params));
    unnamed_step_stays(set, behind, i);
}

/// Whether a journal holds no mark of a transaction.
spec fn unmarked(journal: Seq<MutationView>) -> bool {
    forall|i: int| 0 <= i < journal.len() ==> !(#[trigger] journal[i]).kind.is_transaction_mark()
}

/// A journal without marks leaves what is held for the open transaction as
/// it was.
proof fn unmarked_journal_keeps_what_is_held(store: StoreState, journal: Seq<MutationView>)
    requires
        unmarked(journal),
    ensures
        store.replay(journal).held == store.held,
        store.replay(journal).held_ledger == store.held_ledger,
        store.replay(journal).held_projects == store.held_projects,
        store.replay(journal).held_steps == store.held_steps,
        store.replay(journal).held_notes == store.held_notes,
        store.replay(journal).held_attachments == store.held_attachments,
    decreases journal.len(),
{
    if journal.len() > 0 {
        let earlier = journal.drop_last();
        assert(forall|i: int| 0 <= i < earlier.len() ==> earlier[i] == journal[i]);
        unmarked_journal_keeps_what_is_held(store, earlier);
        assert(journal.last() == journal[journal.len() - 1]);
    }
}

/// What is held for an open transaction has no part in what a journal
/// without marks does to the rows.
proof fn held_rows_do_not_matter(a: StoreState, b: StoreState, journal: Seq<MutationView>)
    requires
        a.same_rows(b),
        unmarked(journal),
    ensures
        a.replay(journal).same_rows(b.replay(journal)),
    decreases journal.len(),
{
    if journal.len() > 0 {
        let earlier = journal.drop_last();
        assert(forall|i: int| 0 <= i < earlier.len() ==> earlier[i] == journal[i]);
        held_rows_do_not_matter(a, b, earlier);
        let last = journal.last();
        assert(last == journal[journal.len() - 1]);
        let x = a.replay(earlier);
        let y = b.replay(earlier);
        assert(x.has_project(last.params[0].text()) == y.has_project(last.params[0].text()));
        assert(x.has_step(last.params[0].text()) == y.has_step(last.params[0].text()));
        assert(x.has_note(last.params[0].text()) == y.has_note(last.params[0].text()));
        assert(x.has_attachment(last.params[0].text()) == y.has_attachment(
            last.params[0].text(),
        ));
    }
}

/// The updates of a batch hold no mark of a transaction.
proof fn updates_are_unmarked(steps: Seq<Step>, k: int)
    requires
        0 <= k <= steps.len(),
    ensures
        unmarked(update_steps(steps).take(k)),
        unmarked(update_steps(steps)),
{
}

/// A failed batch leaves the store as it was: whatever was acknowledged of
/// a batch that was given up, the store that stands once nothing is open
/// holds the rows that it held before the batch; and where the rollback was
/// acknowledged, nothing is open and the store holds those rows.
pub proof fn abandoned_batch_counts_for_nothing(
    store: StoreState,
    steps: Seq<Step>,
    acknowledged: int,
    undone: bool,
)
    requires
        !store.held,
        0 <= acknowledged <= steps.len(),
    ensures
        store.replay(abandoned_batch(steps, acknowledged, undone)).settled().same_rows(store),
        undone ==> !store.replay(abandoned_batch(steps, acknowledged, undone)).held
            && store.replay(abandoned_batch(steps, acknowledged, undone)).same_rows(store),
{
    let updates = update_steps(steps).take(acknowledged);
    let first = seq![begun()];
    replay_push(store, Seq::<MutationView>::empty(), begun());
    assert(Seq::<MutationView>::empty().push(begun()) =~= first);
    let opened = store.apply(begun());
    assert(store.replay(first) == opened);
    replay_concat(store, first, updates);
    updates_are_unmarked(steps, acknowledged);
    unmarked_journal_keeps_what_is_held(opened, updates);
    if undone {
        replay_push(store, first + updates, rolled_back());
    }
}

/// A batch that went through is its updates: once the commit is
/// acknowledged, nothing is open and the store holds the rows that the
/// updates alone lead to.
pub proof fn committed_batch_is_its_updates(store: StoreState, steps: Seq<Step>)
    requires
        !store.held,
    ensures
        !store.replay(committed_batch(steps)).held,
        store.replay(committed_batch(steps)).same_rows(store.replay(update_steps(steps))),
{
    let updates = update_steps(steps);
    let first = seq![begun()];
    replay_push(store, Seq::<MutationView>::empty(), begun());
    assert(Seq::<MutationView>::empty().push(begun()) =~= first);
    let opened = store.apply(begun());
    assert(store.replay(first) == opened);
    replay_concat(store, first, updates);
    replay_push(store, first + updates, committed());
    updates_are_unmarked(steps, 0);
    held_rows_do_not_matter(opened, store, updates);
}

} // verus!
