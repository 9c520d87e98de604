//! Identity: no mutation makes two rows of a table share an id.

use vstd::prelude::*;
use crate::attachment::ImageAttachmentView;
use crate::laws::lists::selection_keeps_order;
use crate::model::StoreState;
use crate::mutation::{MutationKind, MutationView};
use crate::note::NoteView;
use crate::project::ProjectRow;
use crate::step::StepRow;

verus! {

/// Identity is unique: where no two rows of a table share an id, no
/// mutation makes two rows share one.
pub proof fn mutation_keeps_ids_apart(store: StoreState, mutation: MutationView)
    requires
        store.well_formed(),
    ensures
        store.apply(mutation).well_formed(),
{
    let after = store.apply(mutation);
    let p = mutation.params;
    if mutation.complete() {
        match mutation.kind {
            MutationKind::DeleteStepsOfProject => {
                let keep = |row: StepRow| row.project_id != p[0].text();
                assert forall|i: int, j: int| 0 <= i < j < after.steps.len() implies (
                #[trigger] after.steps[i]).id != (#[trigger] after.steps[j]).id by {
                    let at = selection_keeps_order(store.steps, keep, i, j);
                    assert(store.steps[at.0].id != store.steps[at.1].id);
                }
            },
            MutationKind::DeleteNotesOfProject => {
                let keep = |row: NoteView| row.project_id != p[0].text();
                assert forall|i: int, j: int| 0 <= i < j < after.notes.len() implies (
                #[trigger] after.notes[i]).id != (#[trigger] after.notes[j]).id by {
                    let at = selection_keeps_order(store.notes, keep, i, j);
                    assert(store.notes[at.0].id != store.notes[at.1].id);
                }
            },
            MutationKind::DeleteProject => {
                let keep = |row: ProjectRow| row.id != p[0].text();
                assert forall|i: int, j: int| 0 <= i < j < after.projects.len() implies (
                #[trigger] after.projects[i]).id != (#[trigger] after.projects[j]).id by {
                    let at = selection_keeps_order(store.projects, keep, i, j);
                    assert(store.projects[at.0].id != store.projects[at.1].id);
                }
            },
            MutationKind::DeleteStep => {
                let keep = |row: StepRow| row.id != p[0].text();
                assert forall|i: int, j: int| 0 <= i < j < after.steps.len() implies (
                #[trigger] after.steps[i]).id != (#[trigger] after.steps[j]).id by {
                    let at = selection_keeps_order(store.steps, keep, i, j);
                    assert(store.steps[at.0].id != store.steps[at.1].id);
                }
            },
            MutationKind::DeleteNote => {
                let keep = |row: NoteView| row.id != p[0].text();
                assert forall|i: int, j: int| 0 <= i < j < after.notes.len() implies (
                #[trigger] after.notes[i]).id != (#[trigger] after.notes[j]).id by {
                    let at = selection_keeps_order(store.notes, keep, i, j);
                    assert(store.notes[at.0].id != store.notes[at.1].id);
                }
            },
            MutationKind::DeleteAttachment => {
                let keep = |row: ImageAttachmentView| row.id != p[0].text();
                assert forall|i: int, j: int| 0 <= i < j < after.attachments.len() implies (
                #[trigger] after.attachments[i]).id != (#[trigger] after.attachments[j]).id by {
                    let at = selection_keeps_order(store.attachments, keep, i, j);
                    assert(store.attachments[at.0].id != store.attachments[at.1].id);
                }
            },
            MutationKind::DeleteAttachmentsOfOwner => {
                let keep = |row: ImageAttachmentView|
                    !(row.content_id == p[0].text() && row.content_type_enum == p[1].text());
                assert forall|i: int, j: int| 0 <= i < j < after.attachments.len() implies (
                #[trigger] after.attachments[i]).id != (#[trigger] after.attachments[j]).id by {
                    let at = selection_keeps_order(store.attachments, keep, i, j);
                    assert(store.attachments[at.0].id != store.attachments[at.1].id);
                }
            },
            _ => {},
        }
    }
}

/// Identity is unique after any journal: from a store in which no two rows
/// of a table share an id, no journal leads to one in which two do.
pub proof fn journal_keeps_ids_apart(store: StoreState, journal: Seq<MutationView>)
    requires
        store.well_formed(),
    ensures
        store.replay(journal).well_formed(),
    decreases journal.len(),
{
    if journal.len() > 0 {
        journal_keeps_ids_apart(store, journal.drop_last());
        mutation_keeps_ids_apart(store.replay(journal.drop_last()), journal.last());
    }
}

} // verus!
