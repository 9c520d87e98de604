//! Mutations: the statements by which the library changes a store.
//!
//! A mutation is one of a fixed list of kinds, each with its own SQL text,
//! and the values bound to the positional parameters of that text.

use vstd::prelude::*;

verus! {

/// A value bound to a positional parameter.
#[derive(Debug, Clone, PartialEq, Eq)]
pub enum SqlValue {
    Integer(i64),
    Text(String),
}

/// What a [`SqlValue`] holds.
pub enum SqlValueView {
    Integer(int),
    Text(Seq<char>),
}

impl View for SqlValue {
    type V = SqlValueView;

    open spec fn view(&self) -> SqlValueView {
        match self {
            SqlValue::Integer(i) => SqlValueView::Integer(*i as int),
            SqlValue::Text(s) => SqlValueView::Text(s@),
        }
    }
}

impl SqlValueView {
    /// The text held, empty for an integer.
    pub open spec fn text(self) -> Seq<char> {
        match self {
            SqlValueView::Text(s) => s,
            SqlValueView::Integer(_) => Seq::empty(),
        }
    }

    /// The integer held, zero for a text.
    pub open spec fn integer(self) -> int {
        match self {
            SqlValueView::Integer(i) => i,
            SqlValueView::Text(_) => 0,
        }
    }
}

pub const SQL_CREATE_LEDGER: &'static str =
    "CREATE TABLE IF NOT EXISTS schema_version (version INTEGER PRIMARY KEY)";

pub const SQL_CREATE_PROJECTS: &'static str =
    "CREATE TABLE projects (id TEXT PRIMARY KEY, name TEXT NOT NULL, description TEXT, created_at TEXT NOT NULL, updated_at TEXT NOT NULL, gradient TEXT NOT NULL, current_step_id TEXT)";

pub const SQL_CREATE_STEPS: &'static str =
    "CREATE TABLE steps (id TEXT PRIMARY KEY, project_id TEXT NOT NULL, title TEXT NOT NULL, description TEXT, plain_text TEXT, order_index INTEGER NOT NULL, completed INTEGER NOT NULL DEFAULT 0, created_at TEXT NOT NULL, updated_at TEXT NOT NULL, FOREIGN KEY (project_id) REFERENCES projects(id) ON DELETE CASCADE)";

pub const SQL_CREATE_NOTES: &'static str =
    "CREATE TABLE notes (id TEXT PRIMARY KEY, project_id TEXT NOT NULL, title TEXT NOT NULL, content TEXT NOT NULL, plain_text TEXT NOT NULL, created_at TEXT NOT NULL, updated_at TEXT NOT NULL, FOREIGN KEY (project_id) REFERENCES projects(id) ON DELETE CASCADE)";

pub const SQL_CREATE_ATTACHMENTS: &'static str =
    "CREATE TABLE image_attachments (id TEXT PRIMARY KEY, file_path TEXT NOT NULL, filename TEXT NOT NULL, content_type TEXT NOT NULL, content_id TEXT NOT NULL, content_type_enum TEXT NOT NULL CHECK (content_type_enum IN ('step', 'note', 'project_description')), created_at TEXT NOT NULL)";

pub const SQL_ADD_CURRENT_STEP_COLUMN: &'static str =
    "ALTER TABLE projects ADD COLUMN current_step_id TEXT";

pub const SQL_CREATE_NOTES_IF_MISSING: &'static str =
    "CREATE TABLE IF NOT EXISTS notes (id TEXT PRIMARY KEY, project_id TEXT NOT NULL, title TEXT NOT NULL, content TEXT NOT NULL, plain_text TEXT NOT NULL, created_at TEXT NOT NULL, updated_at TEXT NOT NULL, FOREIGN KEY (project_id) REFERENCES projects(id) ON DELETE CASCADE)";

pub const SQL_ADD_PLAIN_TEXT_COLUMN: &'static str = "ALTER TABLE steps ADD COLUMN plain_text TEXT";

pub const SQL_CREATE_ATTACHMENTS_IF_MISSING: &'static str =
    "CREATE TABLE IF NOT EXISTS image_attachments (id TEXT PRIMARY KEY, file_path TEXT NOT NULL, filename TEXT NOT NULL, content_type TEXT NOT NULL, content_id TEXT NOT NULL, content_type_enum TEXT NOT NULL CHECK (content_type_enum IN ('step', 'note', 'project_description')), created_at TEXT NOT NULL)";

pub const SQL_STAMP_GENERATION: &'static str =
    "INSERT OR REPLACE INTO schema_version (version) VALUES (?1)";

pub const SQL_INSERT_PROJECT: &'static str =
    "INSERT INTO projects (id, name, description, created_at, updated_at, gradient, current_step_id) VALUES (?1, ?2, ?3, ?4, ?5, ?6, ?7)";

pub const SQL_UPDATE_PROJECT: &'static str =
    "UPDATE projects SET name = ?1, description = ?2, updated_at = ?3, gradient = ?4, current_step_id = ?5 WHERE id = ?6";

pub const SQL_DELETE_STEPS_OF_PROJECT: &'static str = "DELETE FROM steps WHERE project_id = ?1";

pub const SQL_DELETE_NOTES_OF_PROJECT: &'static str = "DELETE FROM notes WHERE project_id = ?1";

pub const SQL_DELETE_PROJECT: &'static str = "DELETE FROM projects WHERE id = ?1";

pub const SQL_SET_CURRENT_STEP: &'static str =
    "UPDATE projects SET current_step_id = ?1 WHERE id = ?2";

pub const SQL_INSERT_STEP: &'static str =
    "INSERT INTO steps (id, project_id, title, description, plain_text, order_index, completed, created_at, updated_at) VALUES (?1, ?2, ?3, ?4, ?5, ?6, ?7, ?8, ?9)";

pub const SQL_UPDATE_STEP: &'static str =
    "UPDATE steps SET title = ?1, description = ?2, plain_text = ?3, order_index = ?4, completed = ?5, updated_at = ?6 WHERE id = ?7";

pub const SQL_DELETE_STEP: &'static str = "DELETE FROM steps WHERE id = ?1";

pub const SQL_INSERT_NOTE: &'static str =
    "INSERT INTO notes (id, project_id, title, content, plain_text, created_at, updated_at) VALUES (?1, ?2, ?3, ?4, ?5, ?6, ?7)";

pub const SQL_UPDATE_NOTE: &'static str =
    "UPDATE notes SET title = ?1, content = ?2, plain_text = ?3, updated_at = ?4 WHERE id = ?5";

pub const SQL_DELETE_NOTE: &'static str = "DELETE FROM notes WHERE id = ?1";

pub const SQL_INSERT_ATTACHMENT: &'static str =
    "INSERT INTO image_attachments (id, file_path, filename, content_type, content_id, content_type_enum, created_at) VALUES (?1, ?2, ?3, ?4, ?5, ?6, ?7)";

pub const SQL_DELETE_ATTACHMENT: &'static str = "DELETE FROM image_attachments WHERE id = ?1";

pub const SQL_DELETE_ATTACHMENTS_OF_OWNER: &'static str =
    "DELETE FROM image_attachments WHERE content_id = ?1 AND content_type_enum = ?2";

/// What the binding hands to the engine where a transaction begins.
pub const SQL_BEGIN: &'static str = "BEGIN DEFERRED";

/// What the binding hands to the engine where a transaction is committed.
pub const SQL_COMMIT: &'static str = "COMMIT";

/// What the binding hands to the engine where a transaction is rolled back.
pub const SQL_ROLLBACK: &'static str = "ROLLBACK";

/// The kinds of mutation, by what they do.  The first nine change the
/// schema, the tenth writes to the ledger, the last three mark a
/// transaction, the others change rows.
#[derive(Debug, Clone, Copy, PartialEq, Eq)]
pub enum MutationKind {
    /// Creates the ledger table unless it is there.
    CreateLedger,
    /// Creates the table of projects in its latest shape.
    CreateProjects,
    /// Creates the table of steps in its latest shape.
    CreateSteps,
    /// Creates the table of notes in its latest shape.
    CreateNotes,
    /// Creates the table of image attachments in its latest shape.
    CreateAttachments,
    /// Gives projects the column for their current step.
    AddCurrentStepColumn,
    /// Creates the table of notes unless it is there.
    CreateNotesIfMissing,
    /// Gives steps the column for their plain text.
    AddPlainTextColumn,
    /// Creates the table of image attachments unless it is there.
    CreateAttachmentsIfMissing,
    /// Writes a generation to the ledger.
    StampGeneration,
    /// Stores a new project.
    InsertProject,
    /// Overwrites the project of one id.
    UpdateProject,
    /// Removes the steps of one project.
    DeleteStepsOfProject,
    /// Removes the notes of one project.
    DeleteNotesOfProject,
    /// Removes the project of one id.
    DeleteProject,
    /// Sets or clears the current step of one project.
    SetCurrentStep,
    /// Stores a new step.
    InsertStep,
    /// Overwrites the step of one id.
    UpdateStep,
    /// Removes the step of one id.
    DeleteStep,
    /// Stores a new note.
    InsertNote,
    /// Overwrites the note of one id.
    UpdateNote,
    /// Removes the note of one id.
    DeleteNote,
    /// Stores a new attachment.
    InsertAttachment,
    /// Removes the attachment of one id.
    DeleteAttachment,
    /// Removes the attachments of one owner.
    DeleteAttachmentsOfOwner,
    /// Begins a transaction.  The library asks the binding for it and hands
    /// no text of its own.
    BeginTransaction,
    /// Commits the transaction that was begun.
    CommitTransaction,
    /// Rolls the transaction that was begun back.
    RollBackTransaction,
}

impl MutationKind {
    /// The text of a mutation of this kind.
    pub open spec fn text(self) -> Seq<char> {
        match self {
            MutationKind::CreateLedger => SQL_CREATE_LEDGER@,
            MutationKind::CreateProjects => SQL_CREATE_PROJECTS@,
            MutationKind::CreateSteps => SQL_CREATE_STEPS@,
            MutationKind::CreateNotes => SQL_CREATE_NOTES@,
            MutationKind::CreateAttachments => SQL_CREATE_ATTACHMENTS@,
            MutationKind::AddCurrentStepColumn => SQL_ADD_CURRENT_STEP_COLUMN@,
            MutationKind::CreateNotesIfMissing => SQL_CREATE_NOTES_IF_MISSING@,
            MutationKind::AddPlainTextColumn => SQL_ADD_PLAIN_TEXT_COLUMN@,
            MutationKind::CreateAttachmentsIfMissing => SQL_CREATE_ATTACHMENTS_IF_MISSING@,
            MutationKind::StampGeneration => SQL_STAMP_GENERATION@,
            MutationKind::InsertProject => SQL_INSERT_PROJECT@,
            MutationKind::UpdateProject => SQL_UPDATE_PROJECT@,
            MutationKind::DeleteStepsOfProject => SQL_DELETE_STEPS_OF_PROJECT@,
            MutationKind::DeleteNotesOfProject => SQL_DELETE_NOTES_OF_PROJECT@,
            MutationKind::DeleteProject => SQL_DELETE_PROJECT@,
            MutationKind::SetCurrentStep => SQL_SET_CURRENT_STEP@,
            MutationKind::InsertStep => SQL_INSERT_STEP@,
            MutationKind::UpdateStep => SQL_UPDATE_STEP@,
            MutationKind::DeleteStep => SQL_DELETE_STEP@,
            MutationKind::InsertNote => SQL_INSERT_NOTE@,
            MutationKind::UpdateNote => SQL_UPDATE_NOTE@,
            MutationKind::DeleteNote => SQL_DELETE_NOTE@,
            MutationKind::InsertAttachment => SQL_INSERT_ATTACHMENT@,
            MutationKind::DeleteAttachment => SQL_DELETE_ATTACHMENT@,
            MutationKind::DeleteAttachmentsOfOwner => SQL_DELETE_ATTACHMENTS_OF_OWNER@,
            MutationKind::BeginTransaction => SQL_BEGIN@,
            MutationKind::CommitTransaction => SQL_COMMIT@,
            MutationKind::RollBackTransaction => SQL_ROLLBACK@,
        }
    }

    /// How many positional parameters the text of this kind has.
    pub open spec fn arity(self) -> nat {
        match self {
            MutationKind::CreateLedger => 0,
            MutationKind::CreateProjects => 0,
            MutationKind::CreateSteps => 0,
            MutationKind::CreateNotes => 0,
            MutationKind::CreateAttachments => 0,
            MutationKind::AddCurrentStepColumn => 0,
            MutationKind::CreateNotesIfMissing => 0,
            MutationKind::AddPlainTextColumn => 0,
            MutationKind::CreateAttachmentsIfMissing => 0,
            MutationKind::StampGeneration => 1,
            MutationKind::InsertProject => 7,
            MutationKind::UpdateProject => 6,
            MutationKind::DeleteStepsOfProject => 1,
            MutationKind::DeleteNotesOfProject => 1,
            MutationKind::DeleteProject => 1,
            MutationKind::SetCurrentStep => 2,
            MutationKind::InsertStep => 9,
            MutationKind::UpdateStep => 7,
            MutationKind::DeleteStep => 1,
            MutationKind::InsertNote => 7,
            MutationKind::UpdateNote => 5,
            MutationKind::DeleteNote => 1,
            MutationKind::InsertAttachment => 7,
            MutationKind::DeleteAttachment => 1,
            MutationKind::DeleteAttachmentsOfOwner => 2,
            MutationKind::BeginTransaction => 0,
            MutationKind::CommitTransaction => 0,
            MutationKind::RollBackTransaction => 0,
        }
    }

    /// Whether this kind marks the begin or the end of a transaction.
    pub open spec fn is_transaction_mark(self) -> bool {
        self == MutationKind::BeginTransaction || self == MutationKind::CommitTransaction || self
            == MutationKind::RollBackTransaction
    }

    /// Whether this kind changes the schema and no row.
    pub open spec fn is_schema_change(self) -> bool {
        self.arity() == 0 && !self.is_transaction_mark()
    }

    /// The text to hand to the engine.
    pub fn sql(self) -> (text: &'static str)
        ensures
            text@ == self.text(),
    {
        match self {
            MutationKind::CreateLedger => SQL_CREATE_LEDGER,
            MutationKind::CreateProjects => SQL_CREATE_PROJECTS,
            MutationKind::CreateSteps => SQL_CREATE_STEPS,
            MutationKind::CreateNotes => SQL_CREATE_NOTES,
            MutationKind::CreateAttachments => SQL_CREATE_ATTACHMENTS,
            MutationKind::AddCurrentStepColumn => SQL_ADD_CURRENT_STEP_COLUMN,
            MutationKind::CreateNotesIfMissing => SQL_CREATE_NOTES_IF_MISSING,
            MutationKind::AddPlainTextColumn => SQL_ADD_PLAIN_TEXT_COLUMN,
            MutationKind::CreateAttachmentsIfMissing => SQL_CREATE_ATTACHMENTS_IF_MISSING,
            MutationKind::StampGeneration => SQL_STAMP_GENERATION,
            MutationKind::InsertProject => SQL_INSERT_PROJECT,
            MutationKind::UpdateProject => SQL_UPDATE_PROJECT,
            MutationKind::DeleteStepsOfProject => SQL_DELETE_STEPS_OF_PROJECT,
            MutationKind::DeleteNotesOfProject => SQL_DELETE_NOTES_OF_PROJECT,
            MutationKind::DeleteProject => SQL_DELETE_PROJECT,
            MutationKind::SetCurrentStep => SQL_SET_CURRENT_STEP,
            MutationKind::InsertStep => SQL_INSERT_STEP,
            MutationKind::UpdateStep => SQL_UPDATE_STEP,
            MutationKind::DeleteStep => SQL_DELETE_STEP,
            MutationKind::InsertNote => SQL_INSERT_NOTE,
            MutationKind::UpdateNote => SQL_UPDATE_NOTE,
            MutationKind::DeleteNote => SQL_DELETE_NOTE,
            MutationKind::InsertAttachment => SQL_INSERT_ATTACHMENT,
            MutationKind::DeleteAttachment => SQL_DELETE_ATTACHMENT,
            MutationKind::DeleteAttachmentsOfOwner => SQL_DELETE_ATTACHMENTS_OF_OWNER,
            MutationKind::BeginTransaction => SQL_BEGIN,
            MutationKind::CommitTransaction => SQL_COMMIT,
            MutationKind::RollBackTransaction => SQL_ROLLBACK,
        }
    }
}

/// A mutation ready for the engine: its kind and the values for its
/// positional parameters, the first value for `?1`.
#[derive(Debug, Clone, PartialEq, Eq)]
pub struct Mutation {
    pub kind: MutationKind,
    pub params: Vec<SqlValue>,
}

/// What a [`Mutation`] holds.
pub struct MutationView {
    pub kind: MutationKind,
    pub params: Seq<SqlValueView>,
}

/// The values of a parameter list.
pub open spec fn values_of(params: Seq<SqlValue>) -> Seq<SqlValueView> {
    params.map_values(|v: SqlValue| v@)
}

impl View for Mutation {
    type V = MutationView;

    open spec fn view(&self) -> MutationView {
        MutationView { kind: self.kind, params: values_of(self.params@) }
    }
}

/// What the mutations of a plan hold, in the order of the plan.
pub open spec fn mutations_of(plan: Seq<Mutation>) -> Seq<MutationView> {
    plan.map_values(|mutation: Mutation| mutation@)
}

impl MutationView {
    /// The mutation of a kind that takes no parameter.
    pub open spec fn bare(kind: MutationKind) -> MutationView {
        MutationView { kind, params: Seq::empty() }
    }

    /// Whether the mutation carries as many values as its text has
    /// parameters.
    pub open spec fn complete(self) -> bool {
        self.params.len() == self.kind.arity()
    }
}

impl Mutation {
    /// A mutation without parameters.
    pub fn bare(kind: MutationKind) -> (mutation: Mutation)
        ensures
            mutation@ == MutationView::bare(kind),
    {
        let mutation = Mutation { kind, params: Vec::new() };
        assert(mutation@.params =~= Seq::empty());
        mutation
    }
}

} // verus!
