//! Schema generations: the table of migrations and the plans drawn from it.
//!
//! A store carries a generation number in its ledger.  A new store gets the
//! latest schema in one step; an older store is brought forward by the
//! migrations above its generation, each followed by its own ledger stamp,
//! so that a store interrupted between two steps resumes at the next one.

use vstd::prelude::*;
use crate::mutation::{mutations_of, Mutation, MutationKind, MutationView, SqlValue, SqlValueView};

verus! {

/// The generation of the schema that this library reads and writes.
pub const LATEST_GENERATION: i32 = 5;

/// One migration: the schema change that lifts a store to `target`.
#[derive(Debug, Clone, Copy, PartialEq, Eq)]
pub struct Migration {
    pub target: i32,
    pub change: MutationKind,
}

/// The migrations, by ascending target.  New ones go at the end.
pub open spec fn migration_table() -> Seq<Migration> {
    seq![
        Migration { target: 2, change: MutationKind::AddCurrentStepColumn },
        Migration { target: 3, change: MutationKind::CreateNotesIfMissing },
        Migration { target: 4, change: MutationKind::AddPlainTextColumn },
        Migration { target: 5, change: MutationKind::CreateAttachmentsIfMissing },
    ]
}

/// The table of migrations.
pub fn migrations() -> (table: Vec<Migration>)
    ensures
        table@ == migration_table(),
{
    let table = vec![
        Migration { target: 2, change: MutationKind::AddCurrentStepColumn },
        Migration { target: 3, change: MutationKind::CreateNotesIfMissing },
        Migration { target: 4, change: MutationKind::AddPlainTextColumn },
        Migration { target: 5, change: MutationKind::CreateAttachmentsIfMissing },
    ];
    assert(table@ =~= migration_table());
    table
}

/// The generation that a ledger reports, from what reading it gave: its
/// greatest entry, and 0 where it has no entry.
pub open spec fn generation_or_zero(read: Option<i32>) -> i32 {
    match read {
        Some(generation) => generation,
        None => 0,
    }
}

/// The generation that a ledger reports.  `read` is the greatest entry of
/// the ledger, and `None` where the ledger has no entry.
pub fn reported_generation(read: Option<i32>) -> (generation: i32)
    ensures
        generation == generation_or_zero(read),
{
    match read {
        Some(generation) => generation,
        None => 0,
    }
}

/// The ledger write for `generation`.
pub open spec fn stamp(generation: i32) -> MutationView {
    MutationView {
        kind: MutationKind::StampGeneration,
        params: seq![SqlValueView::Integer(generation as int)],
    }
}

/// The mutation that writes `generation` to the ledger.
pub fn stamp_mutation(generation: i32) -> (mutation: Mutation)
    ensures
        mutation@ == stamp(generation),
{
    let mutation = Mutation {
        kind: MutationKind::StampGeneration,
        params: vec![SqlValue::Integer(generation as i64)],
    };
    assert(mutation@.params =~= stamp(generation).params);
    mutation
}

/// What the migrations of `table` above `current` hand to the engine: for
/// each of them, in the table's order, its schema change and then the stamp
/// of its target.
pub open spec fn plan_of(table: Seq<Migration>, current: i32) -> Seq<MutationView>
    decreases table.len(),
{
    if table.len() == 0 {
        Seq::empty()
    } else {
        let earlier = plan_of(table.drop_last(), current);
        let step = table.last();
        if step.target > current {
            earlier.push(MutationView::bare(step.change)).push(stamp(step.target))
        } else {
            earlier
        }
    }
}

/// What brings a store at generation `current` to the latest generation.
pub open spec fn migration_plan(current: i32) -> Seq<MutationView> {
    plan_of(migration_table(), current)
}

/// The mutations that bring a store at generation `current` to the latest
/// generation, in the order in which they must run.
pub fn migration_mutations(current: i32) -> (plan: Vec<Mutation>)
    ensures
        mutations_of(plan@) == migration_plan(current),
{
    let table = migrations();
    let mut plan: Vec<Mutation> = Vec::new();
    let mut i: usize = 0;
    assert(mutations_of(plan@) =~= plan_of(table@.take(0), current));
    while i < table.len()
        invariant
            i <= table.len(),
            table@ == migration_table(),
            mutations_of(plan@) == plan_of(table@.take(i as int), current),
        decreases table.len() - i,
    {
        let step = table[i];
        let ghost before = plan@;
        assert(table@.take(i + 1).drop_last() =~= table@.take(i as int));
        if step.target > current {
            let change = Mutation::bare(step.change);
            let mark = stamp_mutation(step.target);
            plan.push(change);
            plan.push(mark);
            assert(mutations_of(plan@) =~= mutations_of(before).push(change@).push(mark@));
        }
        i += 1;
    }
    assert(table@.take(table.len() as int) =~= table@);
    plan
}

/// The schema of a new store: every table in its latest shape.
pub open spec fn initial_schema() -> Seq<MutationView> {
    seq![
        MutationView::bare(MutationKind::CreateProjects),
        MutationView::bare(MutationKind::CreateSteps),
        MutationView::bare(MutationKind::CreateNotes),
        MutationView::bare(MutationKind::CreateAttachments),
    ]
}

/// The mutations that create every table in its latest shape.
pub fn initial_schema_mutations() -> (plan: Vec<Mutation>)
    ensures
        mutations_of(plan@) == initial_schema(),
{
    let plan = vec![
        Mutation::bare(MutationKind::CreateProjects),
        Mutation::bare(MutationKind::CreateSteps),
        Mutation::bare(MutationKind::CreateNotes),
        Mutation::bare(MutationKind::CreateAttachments),
    ];
    assert(mutations_of(plan@) =~= initial_schema());
    plan
}

/// What a new store is given: every table in its latest shape, then the
/// stamp of the latest generation, and no migration.
pub open spec fn initializing_plan() -> Seq<MutationView> {
    initial_schema().push(stamp(LATEST_GENERATION))
}

/// The mutations that give a new store its schema and its stamp.
pub fn initializing_mutations() -> (plan: Vec<Mutation>)
    ensures
        mutations_of(plan@) == initializing_plan(),
{
    let mut plan = initial_schema_mutations();
    let ghost tables = plan@;
    let mark = stamp_mutation(LATEST_GENERATION);
    plan.push(mark);
    assert(mutations_of(plan@) =~= mutations_of(tables).push(mark@));
    plan
}

/// What a store that was just opened is given once its ledger table is made
/// sure of: a store that was not there before the schema and the stamp of a
/// new store, a store that was there the migrations above `found`, the
/// generation that its ledger reported.
pub open spec fn upgrade_plan(existed: bool, found: i32) -> Seq<MutationView> {
    if existed {
        migration_plan(found)
    } else {
        initializing_plan()
    }
}

/// Everything that opening a store hands to the engine: the ledger table
/// first, then what brings the store to the latest generation.  `existed`
/// says whether the store was there before it was opened, `found` what its
/// ledger reported.
pub open spec fn opening_plan(existed: bool, found: i32) -> Seq<MutationView> {
    seq![MutationView::bare(MutationKind::CreateLedger)] + upgrade_plan(existed, found)
}

/// The first generation that a store at `current` still has to reach.
pub open spec fn first_pending(current: i32) -> int {
    if current < 1 {
        2
    } else {
        current + 1
    }
}

/// The schema change that lifts a store to `generation`.
pub open spec fn change_for(generation: int) -> MutationKind {
    migration_table()[generation - 2].change
}

/// The migrations for the generations from `first` to `last`, ascending:
/// for each generation its schema change, then its stamp.
pub open spec fn ascent(first: int, last: int) -> Seq<MutationView> {
    Seq::new(
        if first <= last {
            (2 * (last - first + 1)) as nat
        } else {
            0
        },
        |i: int|
            if i % 2 == 0 {
                MutationView::bare(change_for(first + i / 2))
            } else {
                stamp((first + i / 2) as i32)
            },
    )
}

/// A store below the latest generation gets exactly the migrations for the
/// generations above its own, up to the latest, in ascending order, each
/// followed by its stamp, so that the last thing it gets is the stamp of the
/// latest generation.  A store at the latest generation or above it gets
/// nothing.
pub proof fn migration_plan_is_exact(current: i32)
    ensures
        current >= LATEST_GENERATION ==> migration_plan(current) == Seq::<MutationView>::empty(),
        current < LATEST_GENERATION ==> migration_plan(current) == ascent(
            first_pending(current),
            LATEST_GENERATION as int,
        ),
        current < LATEST_GENERATION ==> migration_plan(current).last() == stamp(LATEST_GENERATION),
{
    let table = migration_table();
    let three = table.drop_last();
    let two = three.drop_last();
    let one = two.drop_last();
    let none = one.drop_last();
    assert(plan_of(none, current) =~= Seq::empty());
    assert(one.last() == table[0]);
    assert(two.last() == table[1]);
    assert(three.last() == table[2]);
    assert(table.last() == table[3]);
    let after_one = plan_of(one, current);
    let after_two = plan_of(two, current);
    let after_three = plan_of(three, current);
    let whole = plan_of(table, current);
    assert(whole == migration_plan(current));
    if current < LATEST_GENERATION {
        assert(whole =~= ascent(first_pending(current), LATEST_GENERATION as int));
    } else {
        assert(whole =~= Seq::empty());
    }
}

} // verus!
