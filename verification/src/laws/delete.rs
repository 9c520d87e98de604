//! Delete a project, then list: nothing of the project is left.

use vstd::prelude::*;
use crate::laws::lists::{listing_of_nothing_is_empty, nothing_selected, selected_rows};
use crate::model::StoreState;
use crate::mutation::MutationView;
use crate::note::NoteView;
use crate::project::{delete_project_plan, ProjectRow};
use crate::step::{StepRow, StepView};

verus! {

/// The store after the removal of a project: the three removals applied one
/// after the other.
proof fn removal_step_by_step(store: StoreState, project_id: Seq<char>) -> (after: StoreState)
    ensures
        after == store.replay(delete_project_plan(project_id)),
        after.projects == store.projects.filter(|row: ProjectRow| row.id != project_id),
        after.steps == store.steps.filter(|row: StepRow| row.project_id != project_id),
        after.notes == store.notes.filter(|row: NoteView| row.project_id != project_id),
        after.attachments == store.attachments,
        after.ledger == store.ledger,
{
    let plan = delete_project_plan(project_id);
    let first = store.apply(plan[0]);
    let second = first.apply(plan[1]);
    let third = second.apply(plan[2]);
    let two = plan.drop_last();
    let one = two.drop_last();
    assert(one.drop_last() =~= Seq::<MutationView>::empty());
    assert(store.replay(one.drop_last()) == store);
    assert(one.last() == plan[0]);
    assert(store.replay(one) == first);
    assert(two.last() == plan[1]);
    assert(store.replay(two) == second);
    assert(plan.last() == plan[2]);
    third
}

/// Delete a project: once a project is removed, no project has its id.
pub proof fn deleted_project_is_gone(store: StoreState, project_id: Seq<char>)
    ensures
        !store.replay(delete_project_plan(project_id)).has_project(project_id),
{
    let after = removal_step_by_step(store, project_id);
    let others = |row: ProjectRow| row.id != project_id;
    if after.has_project(project_id) {
        let i = choose|i: int| 0 <= i < after.projects.len() && after.projects[i].id == project_id;
        selected_rows(store.projects, others, i);
    }
}

/// Delete a project, then list its steps: the list is empty.
pub proof fn deleted_project_has_no_steps(
    store: StoreState,
    project_id: Seq<char>,
    listed: Seq<StepView>,
)
    requires
        store.replay(delete_project_plan(project_id)).lists_steps_of_project(project_id, listed),
    ensures
        listed.len() == 0,
{
    let after = removal_step_by_step(store, project_id);
    let others = |row: StepRow| row.project_id != project_id;
    let these = |row: StepRow| row.project_id == project_id;
    assert forall|i: int| 0 <= i < after.steps.len() implies !these(#[trigger] after.steps[i]) by {
        selected_rows(store.steps, others, i);
    }
    nothing_selected(after.steps, these);
    listing_of_nothing_is_empty(listed, after.steps_of_project(project_id));
}

/// Delete a project, then list its notes: the list is empty.
pub proof fn deleted_project_has_no_notes(
    store: StoreState,
    project_id: Seq<char>,
    listed: Seq<NoteView>,
)
    requires
        store.replay(delete_project_plan(project_id)).lists_notes_of_project(project_id, listed),
    ensures
        listed.len() == 0,
{
    let after = removal_step_by_step(store, project_id);
    let others = |row: NoteView| row.project_id != project_id;
    let these = |row: NoteView| row.project_id == project_id;
    assert forall|i: int| 0 <= i < after.notes.len() implies !these(#[trigger] after.notes[i]) by {
        selected_rows(store.notes, others, i);
    }
    nothing_selected(after.notes, these);
    listing_of_nothing_is_empty(listed, after.notes_of_project(project_id));
}

/// Delete a project: the steps and notes of other projects, every
/// attachment and the ledger stay as they were.
pub proof fn deleted_project_takes_its_own_only(store: StoreState, project_id: Seq<char>)
    ensures
        store.replay(delete_project_plan(project_id)).projects == store.projects.filter(
            |row: ProjectRow| row.id != project_id,
        ),
        store.replay(delete_project_plan(project_id)).steps == store.steps.filter(
            |row: StepRow| row.project_id != project_id,
        ),
        store.replay(delete_project_plan(project_id)).notes == store.notes.filter(
            |row: NoteView| row.project_id != project_id,
        ),
        store.replay(delete_project_plan(project_id)).attachments == store.attachments,
        store.replay(delete_project_plan(project_id)).ledger == store.ledger,
{
    let after = removal_step_by_step(store, project_id);
}

} // verus!
