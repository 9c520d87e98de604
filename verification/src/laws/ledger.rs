//! The ledger: what opening and migrating a store do to the generation
//! that it reports.

use vstd::prelude::*;
use crate::laws::replay::{replay_concat, replay_push};
use crate::model::StoreState;
use crate::mutation::{MutationKind, MutationView};
use crate::schema::{
    generation_or_zero, migration_plan, migration_plan_is_exact, migration_table, opening_plan,
    plan_of, stamp, Migration, LATEST_GENERATION,
};

verus! {

/// Whether `generation` is the target of a migration of `table` above
/// `current`.
spec fn is_pending_target(table: Seq<Migration>, current: i32, generation: int) -> bool {
    exists|i: int|
        0 <= i < table.len() && (#[trigger] table[i]).target > current && table[i].target
            == generation
}

/// What the migrations of a table do to a store: they stamp the ledger with
/// the targets above `current` and leave every row as it was.
proof fn plan_stamps_ledger(store: StoreState, table: Seq<Migration>, current: i32)
    requires
        forall|i: int| 0 <= i < table.len() ==> (#[trigger] table[i]).change.is_schema_change(),
    ensures
        store.replay(plan_of(table, current)).projects == store.projects,
        store.replay(plan_of(table, current)).steps == store.steps,
        store.replay(plan_of(table, current)).notes == store.notes,
        store.replay(plan_of(table, current)).attachments == store.attachments,
        forall|v: int|
            #[trigger] store.replay(plan_of(table, current)).ledger.contains(v)
                <==> store.ledger.contains(v) || is_pending_target(table, current, v),
    decreases table.len(),
{
    if table.len() > 0 {
        let shorter = table.drop_last();
        let earlier = plan_of(shorter, current);
        let step = table.last();
        plan_stamps_ledger(store, shorter, current);
        let mid = store.replay(earlier);
        let after = store.replay(plan_of(table, current));
        assert(forall|i: int| 0 <= i < shorter.len() ==> shorter[i] == table[i]);
        assert(step == table[table.len() - 1]);
        if step.target > current {
            let change = MutationView::bare(step.change);
            replay_push(store, earlier.push(change), stamp(step.target));
            replay_push(store, earlier, change);
            assert(mid.apply(change) == mid);
            assert(after.ledger == mid.ledger.insert(step.target as int));
        } else {
            assert(after == mid);
        }
        assert forall|v: int|
            is_pending_target(table, current, v) <==> is_pending_target(shorter, current, v) || (
            step.target > current && step.target == v) by {
            if is_pending_target(table, current, v) {
                let i = choose|i: int|
                    0 <= i < table.len() && (#[trigger] table[i]).target > current
                        && table[i].target == v;
                if i < table.len() - 1 {
                    assert(shorter[i].target == v);
                }
            }
            if is_pending_target(shorter, current, v) {
                let i = choose|i: int|
                    0 <= i < shorter.len() && (#[trigger] shorter[i]).target > current
                        && shorter[i].target == v;
                assert(table[i].target == v);
            }
        }
    }
}

/// Changes of the schema leave every row and the ledger as they were.
proof fn schema_changes_touch_no_row(store: StoreState, changes: Seq<MutationView>)
    requires
        forall|i: int|
            0 <= i < changes.len() ==> (#[trigger] changes[i]).kind.is_schema_change() && changes[i]
                == MutationView::bare(changes[i].kind),
    ensures
        store.replay(changes) == store,
    decreases changes.len(),
{
    if changes.len() > 0 {
        schema_changes_touch_no_row(store, changes.drop_last());
        let last = changes.last();
        assert(last == changes[changes.len() - 1]);
        assert(store.apply(last) == store);
    }
}

/// Migrate, then read the ledger: a store whose ledger reports a generation
/// below the latest reports the latest generation once its migrations have
/// run, and none of its rows has changed.
pub proof fn migrated_store_reports_latest(store: StoreState, current: i32)
    requires
        store.reports(current as int),
        current < LATEST_GENERATION,
    ensures
        store.replay(migration_plan(current)).reports(LATEST_GENERATION as int),
        store.replay(migration_plan(current)).projects == store.projects,
        store.replay(migration_plan(current)).steps == store.steps,
        store.replay(migration_plan(current)).notes == store.notes,
        store.replay(migration_plan(current)).attachments == store.attachments,
{
    let table = migration_table();
    plan_stamps_ledger(store, table, current);
    let after = store.replay(migration_plan(current));
    assert(table[3].target == 5);
    assert(is_pending_target(table, current, 5));
    assert(after.ledger.contains(5));
    assert(!(after.ledger =~= Set::<int>::empty()));
    assert forall|v: int| after.ledger.contains(v) implies v <= 5 by {
        if !store.ledger.contains(v) {
            assert(is_pending_target(table, current, v));
            let i = choose|i: int|
                0 <= i < table.len() && (#[trigger] table[i]).target > current && table[i].target
                    == v;
            assert(table[i].target <= 5);
        }
    }
}

/// Open a store for the first time: what a new store is given holds no
/// migration, ends with the stamp of the latest generation, and leaves a
/// store without rows and with a ledger that reports the latest generation.
pub proof fn new_store_reports_latest(store: StoreState, found: i32)
    requires
        store.ledger =~= Set::<int>::empty(),
    ensures
        forall|i: int, k: int|
            0 <= i < opening_plan(false, found).len() && 0 <= k < migration_table().len()
                ==> (#[trigger] opening_plan(false, found)[i]).kind != (
            #[trigger] migration_table()[k]).change,
        opening_plan(false, found).last() == stamp(LATEST_GENERATION),
        store.replay(opening_plan(false, found)).reports(LATEST_GENERATION as int),
        store.replay(opening_plan(false, found)).projects == store.projects,
        store.replay(opening_plan(false, found)).steps == store.steps,
        store.replay(opening_plan(false, found)).notes == store.notes,
        store.replay(opening_plan(false, found)).attachments == store.attachments,
{
    let plan = opening_plan(false, found);
    let schema = seq![
        MutationView::bare(MutationKind::CreateLedger),
        MutationView::bare(MutationKind::CreateProjects),
        MutationView::bare(MutationKind::CreateSteps),
        MutationView::bare(MutationKind::CreateNotes),
        MutationView::bare(MutationKind::CreateAttachments),
    ];
    assert(plan =~= schema.push(stamp(LATEST_GENERATION)));
    replay_push(store, schema, stamp(LATEST_GENERATION));
    schema_changes_touch_no_row(store, schema);
    let after = store.replay(plan);
    assert(after.ledger =~= Set::<int>::empty().insert(5));
    assert(after.ledger.contains(5));
}

/// Open a store below the latest generation: the ledger table is made sure
/// of, then the migrations above the store's generation run, and the store
/// reports the latest generation with every row as it was.
pub proof fn opened_store_reports_latest(store: StoreState, found: i32)
    requires
        store.reports(found as int),
        found < LATEST_GENERATION,
    ensures
        store.replay(opening_plan(true, found)).reports(LATEST_GENERATION as int),
        store.replay(opening_plan(true, found)).projects == store.projects,
        store.replay(opening_plan(true, found)).steps == store.steps,
        store.replay(opening_plan(true, found)).notes == store.notes,
        store.replay(opening_plan(true, found)).attachments == store.attachments,
{
    let ledger = seq![MutationView::bare(MutationKind::CreateLedger)];
    replay_concat(store, ledger, migration_plan(found));
    schema_changes_touch_no_row(store, ledger);
    migrated_store_reports_latest(store, found);
}

/// Open a store that is at the latest generation, or above it: nothing but
/// the making sure of the ledger table is handed to the engine, and the
/// store stays as it was.
pub proof fn store_at_latest_is_left_alone(store: StoreState, found: i32)
    requires
        found >= LATEST_GENERATION,
    ensures
        opening_plan(true, found) == seq![MutationView::bare(MutationKind::CreateLedger)],
        store.replay(opening_plan(true, found)) == store,
{
    migration_plan_is_exact(found);
    let ledger = seq![MutationView::bare(MutationKind::CreateLedger)];
    assert(opening_plan(true, found) =~= ledger);
    schema_changes_touch_no_row(store, ledger);
}

/// Stamp, then read the ledger: the ledger reports the greatest generation
/// ever stamped, so that a stamp never lowers what a ledger with entries
/// reports.
pub proof fn stamp_never_lowers_the_ledger(store: StoreState, before: int, generation: i32)
    requires
        store.reports(before),
    ensures
        store.ledger =~= Set::<int>::empty() ==> store.apply(stamp(generation)).reports(
            generation as int,
        ),
        !(store.ledger =~= Set::<int>::empty()) ==> store.apply(stamp(generation)).reports(
            if before >= generation {
                before
            } else {
                generation as int
            },
        ),
{
    let after = store.apply(stamp(generation));
    assert(after.ledger == store.ledger.insert(generation as int));
    assert(after.ledger.contains(generation as int));
    assert(!(after.ledger =~= Set::<int>::empty()));
}

/// Read the ledger: where the greatest entry of the ledger was read, or
/// nothing was read from a ledger without entries, the generation reported
/// for what was read is the generation that the ledger reports.
pub proof fn read_generation_is_reported(store: StoreState, read: Option<i32>)
    requires
        match read {
            Some(greatest) => store.ledger.contains(greatest as int) && forall|v: int|
                store.ledger.contains(v) ==> v <= greatest,
            None => store.ledger =~= Set::<int>::empty(),
        },
    ensures
        store.reports(generation_or_zero(read) as int),
{
}

} // verus!
