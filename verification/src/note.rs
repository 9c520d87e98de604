//! Notes: the record and its mutations.  A note is stored as it is: its
//! content and its plain text are two columns, and the store derives
//! neither from the other.

use vstd::prelude::*;
use crate::mutation::{Mutation, MutationKind, MutationView, SqlValue, SqlValueView};

verus! {

/// A note of a project.
#[derive(Debug, Clone, PartialEq, Eq)]
pub struct Note {
    pub id: String,
    pub project_id: String,
    pub title: String,
    pub content: String,
    pub plain_text: String,
    pub created_at: String,
    pub updated_at: String,
}

/// What a [`Note`] holds, which is also its row in the table of notes.
pub struct NoteView {
    pub id: Seq<char>,
    pub project_id: Seq<char>,
    pub title: Seq<char>,
    pub content: Seq<char>,
    pub plain_text: Seq<char>,
    pub created_at: Seq<char>,
    pub updated_at: Seq<char>,
}

impl View for Note {
    type V = NoteView;

    open spec fn view(&self) -> NoteView {
        NoteView {
            id: self.id@,
            project_id: self.project_id@,
            title: self.title@,
            content: self.content@,
            plain_text: self.plain_text@,
            created_at: self.created_at@,
            updated_at: self.updated_at@,
        }
    }
}

/// The mutation that stores a new note.
pub open spec fn insert_note(note: NoteView) -> MutationView {
    MutationView {
        kind: MutationKind::InsertNote,
        params: seq![
            SqlValueView::Text(note.id),
            SqlValueView::Text(note.project_id),
            SqlValueView::Text(note.title),
            SqlValueView::Text(note.content),
            SqlValueView::Text(note.plain_text),
            SqlValueView::Text(note.created_at),
            SqlValueView::Text(note.updated_at),
        ],
    }
}

/// The mutation that overwrites the note of the same id: its title,
/// content, plain text and time of update.
pub open spec fn update_note(note: NoteView) -> MutationView {
    MutationView {
        kind: MutationKind::UpdateNote,
        params: seq![
            SqlValueView::Text(note.title),
            SqlValueView::Text(note.content),
            SqlValueView::Text(note.plain_text),
            SqlValueView::Text(note.updated_at),
            SqlValueView::Text(note.id),
        ],
    }
}

/// The mutation that removes a note.
pub open spec fn delete_note(note_id: Seq<char>) -> MutationView {
    MutationView { kind: MutationKind::DeleteNote, params: seq![SqlValueView::Text(note_id)] }
}

impl Note {
    /// The note that a row of the table of notes stands for, from the row's
    /// columns in the table's order.
    pub fn from_columns(
        id: String,
        project_id: String,
        title: String,
        content: String,
        plain_text: String,
        created_at: String,
        updated_at: String,
    ) -> (note: Note)
        ensures
            note@ == (NoteView {
                id: id@,
                project_id: project_id@,
                title: title@,
                content: content@,
                plain_text: plain_text@,
                created_at: created_at@,
                updated_at: updated_at@,
            }),
    {
        Note { id, project_id, title, content, plain_text, created_at, updated_at }
    }

    /// The mutation that stores this note as a new one.
    pub fn insert_mutation(&self) -> (mutation: Mutation)
        ensures
            mutation@ == insert_note(self@),
    {
        let mutation = Mutation {
            kind: MutationKind::InsertNote,
            params: vec![
                SqlValue::Text(self.id.clone()),
                SqlValue::Text(self.project_id.clone()),
                SqlValue::Text(self.title.clone()),
                SqlValue::Text(self.content.clone()),
                SqlValue::Text(self.plain_text.clone()),
                SqlValue::Text(self.created_at.clone()),
                SqlValue::Text(self.updated_at.clone()),
            ],
        };
        assert(mutation@.params =~= insert_note(self@).params);
        mutation
    }

    /// The mutation that overwrites the stored note of the same id.
    pub fn update_mutation(&self) -> (mutation: Mutation)
        ensures
            mutation@ == update_note(self@),
    {
        let mutation = Mutation {
            kind: MutationKind::UpdateNote,
            params: vec![
                SqlValue::Text(self.title.clone()),
                SqlValue::Text(self.content.clone()),
                SqlValue::Text(self.plain_text.clone()),
                SqlValue::Text(self.updated_at.clone()),
                SqlValue::Text(self.id.clone()),
            ],
        };
        assert(mutation@.params =~= update_note(self@).params);
        mutation
    }

    /// The mutation that removes the note `note_id`.
    pub fn delete_mutation(note_id: &str) -> (mutation: Mutation)
        ensures
            mutation@ == delete_note(note_id@),
    {
        let mutation = Mutation {
            kind: MutationKind::DeleteNote,
            params: vec![SqlValue::Text(note_id.to_owned())],
        };
        assert(mutation@.params =~= delete_note(note_id@).params);
        mutation
    }
}

} // verus!
