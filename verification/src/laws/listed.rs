//! What a listing of the store holds: records of its scope only, as they
//! come back from the store, in its order.  These are the promises that the
//! repository operations make of the lists they return.

use vstd::prelude::*;
use crate::attachment::ImageAttachmentView;
use crate::encoding::{absent_if_empty, stored_text_is_stable, text_round_trip};
use crate::laws::lists::{listed_record_is_stored, selected_rows};
use crate::listing::{
    ascending_steps, attachments_within, newest_first_notes, newest_first_projects,
    notes_within, oldest_first_attachments, stored_projects, stored_steps, steps_within,
};
use crate::model::StoreState;
use crate::note::NoteView;
use crate::project::{set_current_step, ProjectView};
use crate::step::{StepRow, StepView};

verus! {

/// A listing of every project holds projects as they come back from the
/// store, the one created last first.
pub proof fn projects_are_listed_as_stored(store: StoreState, listed: Seq<ProjectView>)
    requires
        store.lists_projects(listed),
    ensures
        stored_projects(listed),
        newest_first_projects(listed),
{
    assert forall|i: int| 0 <= i < listed.len() implies (#[trigger] listed[i]).stored()
        == listed[i] by {
        let at = listed_record_is_stored(listed, store.all_projects(), i);
        assert(listed[i] == store.projects[at].decoded());
        stored_text_is_stable(store.projects[at].current_step_id);
    }
}

/// A listing of the steps of a project holds steps of that project only,
/// as they come back from the store, by ascending order index.
pub proof fn steps_are_listed_for_their_project(
    store: StoreState,
    project_id: Seq<char>,
    listed: Seq<StepView>,
)
    requires
        store.lists_steps_of_project(project_id, listed),
    ensures
        steps_within(listed, project_id),
        stored_steps(listed),
        ascending_steps(listed),
{
    let keep = |row: StepRow| row.project_id == project_id;
    let stored = store.steps_of_project(project_id);
    assert forall|i: int| 0 <= i < listed.len() implies (#[trigger] listed[i]).project_id
        == project_id && listed[i].stored() == listed[i] by {
        let at = listed_record_is_stored(listed, stored, i);
        selected_rows(store.steps, keep, at);
        let row = store.steps.filter(keep)[at];
        assert(listed[i] == row.decoded());
        stored_text_is_stable(row.plain_text);
    }
}

/// A listing of every step holds steps as they come back from the store,
/// by ascending order index.
pub proof fn steps_are_listed_as_stored(store: StoreState, listed: Seq<StepView>)
    requires
        store.lists_steps(listed),
    ensures
        stored_steps(listed),
        ascending_steps(listed),
{
    assert forall|i: int| 0 <= i < listed.len() implies (#[trigger] listed[i]).stored()
        == listed[i] by {
        let at = listed_record_is_stored(listed, store.all_steps(), i);
        assert(listed[i] == store.steps[at].decoded());
        stored_text_is_stable(store.steps[at].plain_text);
    }
}

/// A listing of the notes of a project holds notes of that project only,
/// the one created last first.
pub proof fn notes_are_listed_for_their_project(
    store: StoreState,
    project_id: Seq<char>,
    listed: Seq<NoteView>,
)
    requires
        store.lists_notes_of_project(project_id, listed),
    ensures
        notes_within(listed, project_id),
        newest_first_notes(listed),
{
    let keep = |row: NoteView| row.project_id == project_id;
    let stored = store.notes_of_project(project_id);
    assert forall|i: int| 0 <= i < listed.len() implies (#[trigger] listed[i]).project_id
        == project_id by {
        let at = listed_record_is_stored(listed, stored, i);
        selected_rows(store.notes, keep, at);
    }
}

/// A listing of the attachments of an owner holds attachments of that owner
/// only, also where an owner of another kind has the same id, and holds
/// them by ascending time of creation.
pub proof fn attachments_are_listed_for_their_owner(
    store: StoreState,
    content_id: Seq<char>,
    content_type_enum: Seq<char>,
    listed: Seq<ImageAttachmentView>,
)
    requires
        store.lists_attachments_of_owner(content_id, content_type_enum, listed),
    ensures
        attachments_within(listed, content_id, content_type_enum),
        oldest_first_attachments(listed),
        forall|i: int| 0 <= i < listed.len() ==> store.attachments.contains(#[trigger] listed[i]),
{
    let keep = |row: ImageAttachmentView|
        row.content_id == content_id && row.content_type_enum == content_type_enum;
    let stored = store.attachments_of_owner(content_id, content_type_enum);
    assert forall|i: int| 0 <= i < listed.len() implies (#[trigger] listed[i]).content_id
        == content_id && listed[i].content_type_enum == content_type_enum
        && store.attachments.contains(listed[i]) by {
        let at = listed_record_is_stored(listed, stored, i);
        selected_rows(store.attachments, keep, at);
    }
}

/// Set the current step, then list: the project comes back with that
/// current step, and without one where the step was cleared.
pub proof fn current_step_is_listed(
    store: StoreState,
    project_id: Seq<char>,
    step_id: Option<Seq<char>>,
    listed: Seq<ProjectView>,
)
    requires
        store.apply(set_current_step(project_id, step_id)).lists_projects(listed),
    ensures
        forall|i: int|
            0 <= i < listed.len() && (#[trigger] listed[i]).id == project_id
                ==> listed[i].current_step_id == absent_if_empty(step_id),
{
    let after = store.apply(set_current_step(project_id, step_id));
    text_round_trip(step_id);
    assert forall|i: int|
        0 <= i < listed.len() && (#[trigger] listed[i]).id == project_id implies listed[i].current_step_id
        == absent_if_empty(step_id) by {
        let at = listed_record_is_stored(listed, after.all_projects(), i);
        assert(listed[i] == after.projects[at].decoded());
    }
}

} // verus!
