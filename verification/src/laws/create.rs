//! Create, then list: a record stored under a new id is listed once, with
//! its fields as they were given, but that an optional text given as the
//! empty text comes back as not set; and the records that were listed
//! before it are listed with it, each as often as before.

use vstd::prelude::*;
use crate::attachment::{insert_attachment, ImageAttachmentView};
use crate::encoding::{flag_round_trip, text_round_trip};
use crate::laws::lists::{pushed_record_is_listed_once, selected_rows};
use crate::model::{
    attachment_row, note_row, project_row, same_records, step_row, StoreState,
};
use crate::note::{insert_note, NoteView};
use crate::project::{insert_project, ProjectView};
use crate::step::{insert_step, StepRow, StepView};

verus! {

/// Create, then list: a project stored under an id that no project has is
/// listed once, with every field as it was given, but that a current step
/// given as the empty text comes back as not set.
pub proof fn created_project_is_listed_once(
    store: StoreState,
    project: ProjectView,
    listed: Seq<ProjectView>,
)
    requires
        !store.has_project(project.id),
        store.apply(insert_project(project)).lists_projects(listed),
    ensures
        listed.to_multiset().count(project.stored()) == 1,
        same_records(listed, store.all_projects().push(project.stored())),
{
    let mutation = insert_project(project);
    let row = project_row(mutation.params);
    let after = store.apply(mutation);
    text_round_trip(project.current_step_id);
    assert(row.decoded() == project.stored());
    assert(after.projects == store.projects.push(row));
    assert(after.all_projects() =~= store.all_projects().push(project.stored()));
    assert forall|i: int| 0 <= i < store.all_projects().len() implies store.all_projects()[i]
        != project.stored() by {
        assert(store.projects[i].id != project.id);
    }
    pushed_record_is_listed_once(listed, store.all_projects(), project.stored());
}

/// Create, then list all: a step stored under an id that no step has is
/// listed once among all steps, with every field as it was given, but that
/// a plain text given as the empty text comes back as not set.
pub proof fn created_step_is_listed_once(store: StoreState, step: StepView, listed: Seq<StepView>)
    requires
        !store.has_step(step.id),
        store.apply(insert_step(step)).lists_steps(listed),
    ensures
        listed.to_multiset().count(step.stored()) == 1,
        same_records(listed, store.all_steps().push(step.stored())),
{
    let mutation = insert_step(step);
    let row = step_row(mutation.params);
    let after = store.apply(mutation);
    text_round_trip(step.plain_text);
    flag_round_trip(step.completed);
    assert(row.decoded() == step.stored());
    assert(after.steps == store.steps.push(row));
    assert(after.all_steps() =~= store.all_steps().push(step.stored()));
    assert forall|i: int| 0 <= i < store.all_steps().len() implies store.all_steps()[i]
        != step.stored() by {
        assert(store.steps[i].id != step.id);
    }
    pushed_record_is_listed_once(listed, store.all_steps(), step.stored());
}

/// Create, then list by project: a step stored under an id that no step has
/// is listed once among the steps of its project.
pub proof fn created_step_is_listed_once_in_its_project(
    store: StoreState,
    step: StepView,
    listed: Seq<StepView>,
)
    requires
        !store.has_step(step.id),
        store.apply(insert_step(step)).lists_steps_of_project(step.project_id, listed),
    ensures
        listed.to_multiset().count(step.stored()) == 1,
        same_records(listed, store.steps_of_project(step.project_id).push(step.stored())),
{
    let mutation = insert_step(step);
    let row = step_row(mutation.params);
    let after = store.apply(mutation);
    let keep = |row: StepRow| row.project_id == step.project_id;
    text_round_trip(step.plain_text);
    flag_round_trip(step.completed);
    assert(row.decoded() == step.stored());
    assert(after.steps == store.steps.push(row));
    store.steps.lemma_filter_push(row, keep);
    let before = store.steps_of_project(step.project_id);
    assert(after.steps_of_project(step.project_id) =~= before.push(step.stored()));
    assert forall|i: int| 0 <= i < before.len() implies before[i] != step.stored() by {
        selected_rows(store.steps, keep, i);
        let kept = store.steps.filter(keep)[i];
        let at = choose|at: int| 0 <= at < store.steps.len() && store.steps[at] == kept;
        assert(store.steps[at].id != step.id);
    }
    pushed_record_is_listed_once(listed, before, step.stored());
}

/// Create, then list by project: a note stored under an id that no note has
/// is listed once among the notes of its project, with every field as it
/// was given.
pub proof fn created_note_is_listed_once(store: StoreState, note: NoteView, listed: Seq<NoteView>)
    requires
        !store.has_note(note.id),
        store.apply(insert_note(note)).lists_notes_of_project(note.project_id, listed),
    ensures
        listed.to_multiset().count(note) == 1,
        same_records(listed, store.notes_of_project(note.project_id).push(note)),
{
    let mutation = insert_note(note);
    let after = store.apply(mutation);
    let keep = |row: NoteView| row.project_id == note.project_id;
    assert(note_row(mutation.params) == note);
    assert(after.notes == store.notes.push(note));
    store.notes.lemma_filter_push(note, keep);
    let before = store.notes_of_project(note.project_id);
    assert(after.notes_of_project(note.project_id) =~= before.push(note));
    assert forall|i: int| 0 <= i < before.len() implies before[i] != note by {
        selected_rows(store.notes, keep, i);
        let kept = store.notes.filter(keep)[i];
        let at = choose|at: int| 0 <= at < store.notes.len() && store.notes[at] == kept;
        assert(store.notes[at].id != note.id);
    }
    pushed_record_is_listed_once(listed, before, note);
}

/// Create, then list by owner: an attachment stored under an id that no
/// attachment has is listed once among the attachments of its owner, with
/// every field as it was given.
pub proof fn created_attachment_is_listed_once(
    store: StoreState,
    attachment: ImageAttachmentView,
    listed: Seq<ImageAttachmentView>,
)
    requires
        !store.has_attachment(attachment.id),
        store.apply(insert_attachment(attachment)).lists_attachments_of_owner(
            attachment.content_id,
            attachment.content_type_enum,
            listed,
        ),
    ensures
        listed.to_multiset().count(attachment) == 1,
        same_records(
            listed,
            store.attachments_of_owner(attachment.content_id, attachment.content_type_enum).push(
                attachment,
            ),
        ),
{
    let mutation = insert_attachment(attachment);
    let after = store.apply(mutation);
    let keep = |row: ImageAttachmentView|
        row.content_id == attachment.content_id && row.content_type_enum
            == attachment.content_type_enum;
    assert(attachment_row(mutation.params) == attachment);
    assert(after.attachments == store.attachments.push(attachment));
    store.attachments.lemma_filter_push(attachment, keep);
    let before = store.attachments_of_owner(attachment.content_id, attachment.content_type_enum);
    assert(after.attachments_of_owner(attachment.content_id, attachment.content_type_enum)
        =~= before.push(attachment));
    assert forall|i: int| 0 <= i < before.len() implies before[i] != attachment by {
        selected_rows(store.attachments, keep, i);
        let kept = store.attachments.filter(keep)[i];
        let at = choose|at: int|
            0 <= at < store.attachments.len() && store.attachments[at] == kept;
        assert(store.attachments[at].id != attachment.id);
    }
    pushed_record_is_listed_once(listed, before, attachment);
}

} // verus!
