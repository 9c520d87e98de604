//! What a journal means: the rows of a store, and what each mutation does
//! to them.
//!
//! This is the meaning that the library gives to its own mutations on the
//! schema that it creates: a primary key admits one row per id, an update or
//! a removal touches the rows that match and is no error where none does,
//! a transaction that is rolled back leaves the rows as they were when it
//! began, and a mutation inside a transaction counts for nothing until the
//! transaction is committed.  The engine is asked for the same through the
//! texts of the mutations; that it answers so is not proved here.  Nothing
//! in this file runs: the laws in [`crate::laws`] are stated over it.

use vstd::prelude::*;
use crate::attachment::ImageAttachmentView;
use crate::listing::{
    ascending_steps, newest_first_notes, newest_first_projects, oldest_first_attachments,
};
use crate::mutation::{MutationKind, MutationView, SqlValueView};
use crate::note::NoteView;
use crate::project::{ProjectRow, ProjectView};
use crate::step::{StepRow, StepView};

verus! {

/// The rows of a store, each table in the order in which its rows came,
/// and, while a transaction is open, the rows as they were when it began.
pub struct StoreState {
    /// The generations written to the ledger.
    pub ledger: Set<int>,
    pub projects: Seq<ProjectRow>,
    pub steps: Seq<StepRow>,
    pub notes: Seq<NoteView>,
    pub attachments: Seq<ImageAttachmentView>,
    /// Whether a transaction is open.
    pub held: bool,
    /// The ledger as it was when the open transaction began.
    pub held_ledger: Set<int>,
    /// The projects as they were when the open transaction began.
    pub held_projects: Seq<ProjectRow>,
    /// The steps as they were when the open transaction began.
    pub held_steps: Seq<StepRow>,
    /// The notes as they were when the open transaction began.
    pub held_notes: Seq<NoteView>,
    /// The attachments as they were when the open transaction began.
    pub held_attachments: Seq<ImageAttachmentView>,
}

/// No two projects share an id.
pub open spec fn projects_apart(rows: Seq<ProjectRow>) -> bool {
    forall|i: int, j: int|
        0 <= i < j < rows.len() ==> (#[trigger] rows[i]).id != (#[trigger] rows[j]).id
}

/// No two steps share an id.
pub open spec fn steps_apart(rows: Seq<StepRow>) -> bool {
    forall|i: int, j: int|
        0 <= i < j < rows.len() ==> (#[trigger] rows[i]).id != (#[trigger] rows[j]).id
}

/// No two notes share an id.
pub open spec fn notes_apart(rows: Seq<NoteView>) -> bool {
    forall|i: int, j: int|
        0 <= i < j < rows.len() ==> (#[trigger] rows[i]).id != (#[trigger] rows[j]).id
}

/// No two attachments share an id.
pub open spec fn attachments_apart(rows: Seq<ImageAttachmentView>) -> bool {
    forall|i: int, j: int|
        0 <= i < j < rows.len() ==> (#[trigger] rows[i]).id != (#[trigger] rows[j]).id
}

/// The row that the parameters of an insertion of a project make.
pub open spec fn project_row(p: Seq<SqlValueView>) -> ProjectRow {
    ProjectRow {
        id: p[0].text(),
        name: p[1].text(),
        description: p[2].text(),
        created_at: p[3].text(),
        updated_at: p[4].text(),
        gradient: p[5].text(),
        current_step_id: Some(p[6].text()),
    }
}

/// What the parameters of an update of a project make of a row.
pub open spec fn updated_project(row: ProjectRow, p: Seq<SqlValueView>) -> ProjectRow {
    ProjectRow {
        name: p[0].text(),
        description: p[1].text(),
        updated_at: p[2].text(),
        gradient: p[3].text(),
        current_step_id: Some(p[4].text()),
        ..row
    }
}

/// The row that the parameters of an insertion of a step make.
pub open spec fn step_row(p: Seq<SqlValueView>) -> StepRow {
    StepRow {
        id: p[0].text(),
        project_id: p[1].text(),
        title: p[2].text(),
        description: p[3].text(),
        plain_text: Some(p[4].text()),
        order_index: p[5].integer(),
        completed: p[6].integer(),
        created_at: p[7].text(),
        updated_at: p[8].text(),
    }
}

/// What the parameters of an update of a step make of a row.
pub open spec fn updated_step(row: StepRow, p: Seq<SqlValueView>) -> StepRow {
    StepRow {
        title: p[0].text(),
        description: p[1].text(),
        plain_text: Some(p[2].text()),
        order_index: p[3].integer(),
        completed: p[4].integer(),
        updated_at: p[5].text(),
        ..row
    }
}

/// The row that the parameters of an insertion of a note make.
pub open spec fn note_row(p: Seq<SqlValueView>) -> NoteView {
    NoteView {
        id: p[0].text(),
        project_id: p[1].text(),
        title: p[2].text(),
        content: p[3].text(),
        plain_text: p[4].text(),
        created_at: p[5].text(),
        updated_at: p[6].text(),
    }
}

/// What the parameters of an update of a note make of a row.
pub open spec fn updated_note(row: NoteView, p: Seq<SqlValueView>) -> NoteView {
    NoteView {
        title: p[0].text(),
        content: p[1].text(),
        plain_text: p[2].text(),
        updated_at: p[3].text(),
        ..row
    }
}

/// The row that the parameters of an insertion of an attachment make.
pub open spec fn attachment_row(p: Seq<SqlValueView>) -> ImageAttachmentView {
    ImageAttachmentView {
        id: p[0].text(),
        file_path: p[1].text(),
        filename: p[2].text(),
        content_type: p[3].text(),
        content_id: p[4].text(),
        content_type_enum: p[5].text(),
        created_at: p[6].text(),
    }
}

impl StoreState {
    /// Whether a project has this id.
    pub open spec fn has_project(self, id: Seq<char>) -> bool {
        exists|i: int| 0 <= i < self.projects.len() && #[trigger] self.projects[i].id == id
    }

    /// Whether a step has this id.
    pub open spec fn has_step(self, id: Seq<char>) -> bool {
        exists|i: int| 0 <= i < self.steps.len() && #[trigger] self.steps[i].id == id
    }

    /// Whether a note has this id.
    pub open spec fn has_note(self, id: Seq<char>) -> bool {
        exists|i: int| 0 <= i < self.notes.len() && #[trigger] self.notes[i].id == id
    }

    /// Whether an attachment has this id.
    pub open spec fn has_attachment(self, id: Seq<char>) -> bool {
        exists|i: int| 0 <= i < self.attachments.len() && #[trigger] self.attachments[i].id == id
    }

    /// No two rows of a table share an id, neither now nor when the open
    /// transaction began.
    pub open spec fn well_formed(self) -> bool {
        &&& projects_apart(self.projects)
        &&& steps_apart(self.steps)
        &&& notes_apart(self.notes)
        &&& attachments_apart(self.attachments)
        &&& projects_apart(self.held_projects)
        &&& steps_apart(self.held_steps)
        &&& notes_apart(self.held_notes)
        &&& attachments_apart(self.held_attachments)
    }

    /// Whether two stores hold the same rows in every table and the same
    /// ledger.
    pub open spec fn same_rows(self, other: StoreState) -> bool {
        &&& self.ledger == other.ledger
        &&& self.projects == other.projects
        &&& self.steps == other.steps
        &&& self.notes == other.notes
        &&& self.attachments == other.attachments
    }

    /// The store as it stands once nothing is open: where a transaction is
    /// open, the rows as they were when it began.
    pub open spec fn settled(self) -> StoreState {
        if self.held {
            StoreState {
                held: false,
                ledger: self.held_ledger,
                projects: self.held_projects,
                steps: self.held_steps,
                notes: self.held_notes,
                attachments: self.held_attachments,
                ..self
            }
        } else {
            self
        }
    }

    /// The store after the engine has acknowledged `mutation`.  A mutation
    /// with another number of values than its text has parameters, which is
    /// never acknowledged, stands for no change; so does a change of the
    /// schema, which touches no row.  The removal of a project removes the
    /// project alone: the library removes its steps and notes before it.
    pub open spec fn apply(self, mutation: MutationView) -> StoreState {
        let p = mutation.params;
        if !mutation.complete() {
            self
        } else {
            match mutation.kind {
                MutationKind::StampGeneration => StoreState {
                    ledger: self.ledger.insert(p[0].integer()),
                    ..self
                },
                MutationKind::InsertProject => if self.has_project(p[0].text()) {
                    self
                } else {
                    StoreState { projects: self.projects.push(project_row(p)), ..self }
                },
                MutationKind::UpdateProject => StoreState {
                    projects: self.projects.map_values(
                        |row: ProjectRow|
                            if row.id == p[5].text() {
                                updated_project(row, p)
                            } else {
                                row
                            },
                    ),
                    ..self
                },
                MutationKind::DeleteStepsOfProject => StoreState {
                    steps: self.steps.filter(|row: StepRow| row.project_id != p[0].text()),
                    ..self
                },
                MutationKind::DeleteNotesOfProject => StoreState {
                    notes: self.notes.filter(|row: NoteView| row.project_id != p[0].text()),
                    ..self
                },
                MutationKind::DeleteProject => StoreState {
                    projects: self.projects.filter(|row: ProjectRow| row.id != p[0].text()),
                    ..self
                },
                MutationKind::SetCurrentStep => StoreState {
                    projects: self.projects.map_values(
                        |row: ProjectRow|
                            if row.id == p[1].text() {
                                ProjectRow { current_step_id: Some(p[0].text()), ..row }
                            } else {
                                row
                            },
                    ),
                    ..self
                },
                MutationKind::InsertStep => if self.has_step(p[0].text()) {
                    self
                } else {
                    StoreState { steps: self.steps.push(step_row(p)), ..self }
                },
                MutationKind::UpdateStep => StoreState {
                    steps: self.steps.map_values(
                        |row: StepRow|
                            if row.id == p[6].text() {
                                updated_step(row, p)
                            } else {
                                row
                            },
                    ),
                    ..self
                },
                MutationKind::DeleteStep => StoreState {
                    steps: self.steps.filter(|row: StepRow| row.id != p[0].text()),
                    ..self
                },
                MutationKind::InsertNote => if self.has_note(p[0].text()) {
                    self
                } else {
                    StoreState { notes: self.notes.push(note_row(p)), ..self }
                },
                MutationKind::UpdateNote => StoreState {
                    notes: self.notes.map_values(
                        |row: NoteView|
                            if row.id == p[4].text() {
                                updated_note(row, p)
                            } else {
                                row
                            },
                    ),
                    ..self
                },
                MutationKind::DeleteNote => StoreState {
                    notes: self.notes.filter(|row: NoteView| row.id != p[0].text()),
                    ..self
                },
                MutationKind::InsertAttachment => if self.has_attachment(p[0].text()) {
                    self
                } else {
                    StoreState { attachments: self.attachments.push(attachment_row(p)), ..self }
                },
                MutationKind::DeleteAttachment => StoreState {
                    attachments: self.attachments.filter(
                        |row: ImageAttachmentView| row.id != p[0].text(),
                    ),
                    ..self
                },
                MutationKind::DeleteAttachmentsOfOwner => StoreState {
                    attachments: self.attachments.filter(
                        |row: ImageAttachmentView|
                            !(row.content_id == p[0].text() && row.content_type_enum
                                == p[1].text()),
                    ),
                    ..self
                },
                MutationKind::BeginTransaction => if self.held {
                    self
                } else {
                    StoreState {
                        held: true,
                        held_ledger: self.ledger,
                        held_projects: self.projects,
                        held_steps: self.steps,
                        held_notes: self.notes,
                        held_attachments: self.attachments,
                        ..self
                    }
                },
                MutationKind::CommitTransaction => StoreState { held: false, ..self },
                MutationKind::RollBackTransaction => self.settled(),
                _ => self,
            }
        }
    }

    /// The store after a journal, oldest mutation first.
    pub open spec fn replay(self, journal: Seq<MutationView>) -> StoreState
        decreases journal.len(),
    {
        if journal.len() == 0 {
            self
        } else {
            self.replay(journal.drop_last()).apply(journal.last())
        }
    }

    /// Whether `generation` is what the ledger reports: its greatest entry,
    /// and 0 for an empty ledger.
    pub open spec fn reports(self, generation: int) -> bool {
        &&& forall|v: int| self.ledger.contains(v) ==> v <= generation
        &&& if self.ledger =~= Set::<int>::empty() {
            generation == 0
        } else {
            self.ledger.contains(generation)
        }
    }

    /// Every project, in row order.
    pub open spec fn all_projects(self) -> Seq<ProjectView> {
        self.projects.map_values(|row: ProjectRow| row.decoded())
    }

    /// Every step, in row order.
    pub open spec fn all_steps(self) -> Seq<StepView> {
        self.steps.map_values(|row: StepRow| row.decoded())
    }

    /// The steps of one project, in row order.
    pub open spec fn steps_of_project(self, project_id: Seq<char>) -> Seq<StepView> {
        self.steps.filter(|row: StepRow| row.project_id == project_id).map_values(
            |row: StepRow| row.decoded(),
        )
    }

    /// The notes of one project, in row order.
    pub open spec fn notes_of_project(self, project_id: Seq<char>) -> Seq<NoteView> {
        self.notes.filter(|row: NoteView| row.project_id == project_id)
    }

    /// The attachments of one owner, in row order.
    pub open spec fn attachments_of_owner(
        self,
        content_id: Seq<char>,
        content_type_enum: Seq<char>,
    ) -> Seq<ImageAttachmentView> {
        self.attachments.filter(
            |row: ImageAttachmentView|
                row.content_id == content_id && row.content_type_enum == content_type_enum,
        )
    }

    /// Whether `listed` is a listing of every project: each project once,
    /// the one created last first.
    pub open spec fn lists_projects(self, listed: Seq<ProjectView>) -> bool {
        &&& same_records(listed, self.all_projects())
        &&& newest_first_projects(listed)
    }

    /// Whether `listed` is a listing of the steps of one project: each of
    /// them once, by ascending order index.
    pub open spec fn lists_steps_of_project(
        self,
        project_id: Seq<char>,
        listed: Seq<StepView>,
    ) -> bool {
        &&& same_records(listed, self.steps_of_project(project_id))
        &&& ascending_steps(listed)
    }

    /// Whether `listed` is a listing of every step: each step once, by
    /// ascending order index.
    pub open spec fn lists_steps(self, listed: Seq<StepView>) -> bool {
        &&& same_records(listed, self.all_steps())
        &&& ascending_steps(listed)
    }

    /// Whether `listed` is a listing of the notes of one project: each of
    /// them once, the one created last first.
    pub open spec fn lists_notes_of_project(
        self,
        project_id: Seq<char>,
        listed: Seq<NoteView>,
    ) -> bool {
        &&& same_records(listed, self.notes_of_project(project_id))
        &&& newest_first_notes(listed)
    }

    /// Whether `listed` is a listing of the attachments of one owner: each
    /// of them once, the one created first first.
    pub open spec fn lists_attachments_of_owner(
        self,
        content_id: Seq<char>,
        content_type_enum: Seq<char>,
        listed: Seq<ImageAttachmentView>,
    ) -> bool {
        &&& same_records(listed, self.attachments_of_owner(content_id, content_type_enum))
        &&& oldest_first_attachments(listed)
    }
}

/// Whether two lists hold the same records, each as often as the other.
pub open spec fn same_records<T>(listed: Seq<T>, stored: Seq<T>) -> bool {
    listed.to_multiset() =~= stored.to_multiset()
}

} // verus!
