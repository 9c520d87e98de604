//! Reading rows: the queries, and how a cursor becomes a list of records.
//!
//! A query is one of a fixed list of kinds, each with its own SQL text, and
//! the values bound to the positional parameters of that text.  The engine
//! chooses the rows and their order; the texts say which it is asked for.
//! What is decided here is what is handed to the engine and how the columns
//! of a row become a record; [`crate::listing`] then holds the list to what
//! was asked.

use vstd::prelude::*;
use crate::attachment::ImageAttachment;
use crate::engine::{
    column_integer, column_optional_text, column_text, describe, next_row, prepare, query,
};
use crate::error::StoreError;
use crate::listing::{stored_projects, stored_steps, views};
use crate::mutation::{values_of, SqlValue, SqlValueView};
use crate::note::Note;
use crate::project::Project;
use crate::step::Step;

verus! {

/// The greatest generation in the ledger.
pub const SQL_SELECT_GENERATION: &'static str =
    "SELECT version FROM schema_version ORDER BY version DESC LIMIT 1";

/// Every project, the one created last first.
pub const SQL_SELECT_PROJECTS: &'static str =
    "SELECT id, name, description, created_at, updated_at, gradient, current_step_id FROM projects ORDER BY created_at DESC";

/// The steps of one project, by ascending order index.
pub const SQL_SELECT_STEPS_OF_PROJECT: &'static str =
    "SELECT id, project_id, title, description, plain_text, order_index, completed, created_at, updated_at FROM steps WHERE project_id = ?1 ORDER BY order_index";

/// Every step, by ascending order index.
pub const SQL_SELECT_STEPS: &'static str =
    "SELECT id, project_id, title, description, plain_text, order_index, completed, created_at, updated_at FROM steps ORDER BY order_index";

/// The notes of one project, the one created last first.
pub const SQL_SELECT_NOTES_OF_PROJECT: &'static str =
    "SELECT id, project_id, title, content, plain_text, created_at, updated_at FROM notes WHERE project_id = ?1 ORDER BY created_at DESC";

/// The attachments of one owner, the one created first first.
pub const SQL_SELECT_ATTACHMENTS_OF_OWNER: &'static str =
    "SELECT id, file_path, filename, content_type, content_id, content_type_enum, created_at FROM image_attachments WHERE content_id = ?1 AND content_type_enum = ?2 ORDER BY created_at ASC";

/// The kinds of query, by what they ask for.
#[derive(Debug, Clone, Copy, PartialEq, Eq)]
pub enum QueryKind {
    /// The greatest generation in the ledger.
    Generation,
    /// Every project, the one created last first.
    Projects,
    /// The steps of one project, by ascending order index.
    StepsOfProject,
    /// Every step, by ascending order index.
    Steps,
    /// The notes of one project, the one created last first.
    NotesOfProject,
    /// The attachments of one owner, the one created first first.
    AttachmentsOfOwner,
}

impl QueryKind {
    /// The text of a query of this kind.
    pub open spec fn text(self) -> Seq<char> {
        match self {
            QueryKind::Generation => SQL_SELECT_GENERATION@,
            QueryKind::Projects => SQL_SELECT_PROJECTS@,
            QueryKind::StepsOfProject => SQL_SELECT_STEPS_OF_PROJECT@,
            QueryKind::Steps => SQL_SELECT_STEPS@,
            QueryKind::NotesOfProject => SQL_SELECT_NOTES_OF_PROJECT@,
            QueryKind::AttachmentsOfOwner => SQL_SELECT_ATTACHMENTS_OF_OWNER@,
        }
    }

    /// The text to hand to the engine.
    pub fn sql(self) -> (text: &'static str)
        ensures
            text@ == self.text(),
    {
        match self {
            QueryKind::Generation => SQL_SELECT_GENERATION,
            QueryKind::Projects => SQL_SELECT_PROJECTS,
            QueryKind::StepsOfProject => SQL_SELECT_STEPS_OF_PROJECT,
            QueryKind::Steps => SQL_SELECT_STEPS,
            QueryKind::NotesOfProject => SQL_SELECT_NOTES_OF_PROJECT,
            QueryKind::AttachmentsOfOwner => SQL_SELECT_ATTACHMENTS_OF_OWNER,
        }
    }
}

/// A query ready for the engine: its kind and the values for its positional
/// parameters, the first value for `?1`.
#[derive(Debug, Clone, PartialEq, Eq)]
pub struct Query {
    pub kind: QueryKind,
    pub params: Vec<SqlValue>,
}

/// What a [`Query`] holds.
pub struct QueryView {
    pub kind: QueryKind,
    pub params: Seq<SqlValueView>,
}

impl View for Query {
    type V = QueryView;

    open spec fn view(&self) -> QueryView {
        QueryView { kind: self.kind, params: values_of(self.params@) }
    }
}

/// The query for the greatest generation in the ledger.
pub fn generation_query() -> (asked: Query)
    ensures
        asked@ == (QueryView { kind: QueryKind::Generation, params: Seq::empty() }),
{
    let asked = Query { kind: QueryKind::Generation, params: Vec::new() };
    assert(asked@.params =~= Seq::empty());
    asked
}

/// The query for every project.
pub fn projects_query() -> (asked: Query)
    ensures
        asked@ == (QueryView { kind: QueryKind::Projects, params: Seq::empty() }),
{
    let asked = Query { kind: QueryKind::Projects, params: Vec::new() };
    assert(asked@.params =~= Seq::empty());
    asked
}

/// The query for the steps of the project `project_id`.
pub fn steps_of_project_query(project_id: &str) -> (asked: Query)
    ensures
        asked@ == (QueryView {
            kind: QueryKind::StepsOfProject,
            params: seq![SqlValueView::Text(project_id@)],
        }),
{
    let asked = Query {
        kind: QueryKind::StepsOfProject,
        params: vec![SqlValue::Text(project_id.to_owned())],
    };
    assert(asked@.params =~= seq![SqlValueView::Text(project_id@)]);
    asked
}

/// The query for every step.
pub fn steps_query() -> (asked: Query)
    ensures
        asked@ == (QueryView { kind: QueryKind::Steps, params: Seq::empty() }),
{
    let asked = Query { kind: QueryKind::Steps, params: Vec::new() };
    assert(asked@.params =~= Seq::empty());
    asked
}

/// The query for the notes of the project `project_id`.
pub fn notes_of_project_query(project_id: &str) -> (asked: Query)
    ensures
        asked@ == (QueryView {
            kind: QueryKind::NotesOfProject,
            params: seq![SqlValueView::Text(project_id@)],
        }),
{
    let asked = Query {
        kind: QueryKind::NotesOfProject,
        params: vec![SqlValue::Text(project_id.to_owned())],
    };
    assert(asked@.params =~= seq![SqlValueView::Text(project_id@)]);
    asked
}

/// The query for the attachments of the owner `content_id` of kind
/// `content_type_enum`: the id is bound first, the kind second.
pub fn attachments_of_owner_query(content_id: &str, content_type_enum: &str) -> (asked: Query)
    ensures
        asked@ == (QueryView {
            kind: QueryKind::AttachmentsOfOwner,
            params: seq![
                SqlValueView::Text(content_id@),
                SqlValueView::Text(content_type_enum@),
            ],
        }),
{
    let asked = Query {
        kind: QueryKind::AttachmentsOfOwner,
        params: vec![
            SqlValue::Text(content_id.to_owned()),
            SqlValue::Text(content_type_enum.to_owned()),
        ],
    };
    assert(asked@.params =~= seq![
        SqlValueView::Text(content_id@),
        SqlValueView::Text(content_type_enum@),
    ]);
    asked
}

/// What the library says of a cursor that yields more rows than a list can
/// hold.
pub const TOO_MANY_ROWS: &'static str = "more rows than a list can hold";

/// The library's error for a failure of the engine.
pub(crate) fn storage_error(error: &rusqlite::Error) -> (converted: StoreError)
    ensures
        converted is Storage,
{
    StoreError::Storage(describe(error))
}

/// The library's error for a cursor that yields more rows than a vector
/// holds.
fn too_many_rows() -> (error: StoreError)
    ensures
        error matches StoreError::Storage(description) && description@ == TOO_MANY_ROWS@,
{
    StoreError::Storage(TOO_MANY_ROWS.to_owned())
}

/// The project in the current row of a cursor over projects.
fn read_project(row: &rusqlite::Row<'_>) -> (read: Result<Project, rusqlite::Error>)
    ensures
        read matches Ok(project) ==> project@.stored() == project@,
{
    let id = column_text(row, 0)?;
    let name = column_text(row, 1)?;
    let description = column_text(row, 2)?;
    let created_at = column_text(row, 3)?;
    let updated_at = column_text(row, 4)?;
    let gradient = column_text(row, 5)?;
    let current_step_id = column_optional_text(row, 6)?;
    let project = Project::from_columns(
        id,
        name,
        description,
        created_at,
        updated_at,
        gradient,
        current_step_id,
    );
    assert(project@.stored().current_step_id == project@.current_step_id);
    Ok(project)
}

/// The step in the current row of a cursor over steps.
fn read_step(row: &rusqlite::Row<'_>) -> (read: Result<Step, rusqlite::Error>)
    ensures
        read matches Ok(step) ==> step@.stored() == step@,
{
    let id = column_text(row, 0)?;
    let project_id = column_text(row, 1)?;
    let title = column_text(row, 2)?;
    let description = column_text(row, 3)?;
    let plain_text = column_optional_text(row, 4)?;
    let order_index = column_integer(row, 5)?;
    let completed = column_integer(row, 6)?;
    let created_at = column_text(row, 7)?;
    let updated_at = column_text(row, 8)?;
    let step = Step::from_columns(
        id,
        project_id,
        title,
        description,
        plain_text,
        order_index,
        completed,
        created_at,
        updated_at,
    );
    assert(step@.stored().plain_text == step@.plain_text);
    Ok(step)
}

/// The note in the current row of a cursor over notes.
fn read_note(row: &rusqlite::Row<'_>) -> (read: Result<Note, rusqlite::Error>) {
    let id = column_text(row, 0)?;
    let project_id = column_text(row, 1)?;
    let title = column_text(row, 2)?;
    let content = column_text(row, 3)?;
    let plain_text = column_text(row, 4)?;
    let created_at = column_text(row, 5)?;
    let updated_at = column_text(row, 6)?;
    Ok(Note::from_columns(id, project_id, title, content, plain_text, created_at, updated_at))
}

/// The attachment in the current row of a cursor over attachments.
fn read_attachment(row: &rusqlite::Row<'_>) -> (read: Result<ImageAttachment, rusqlite::Error>) {
    let id = column_text(row, 0)?;
    let file_path = column_text(row, 1)?;
    let filename = column_text(row, 2)?;
    let content_type = column_text(row, 3)?;
    let content_id = column_text(row, 4)?;
    let content_type_enum = column_text(row, 5)?;
    let created_at = column_text(row, 6)?;
    Ok(
        ImageAttachment::from_columns(
            id,
            file_path,
            filename,
            content_type,
            content_id,
            content_type_enum,
            created_at,
        ),
    )
}

/// The projects that a cursor yields, in its order.  Fails at the first row
/// that cannot be fetched or read.
fn collect_projects(rows: &mut rusqlite::Rows<'_>) -> (listed: Result<
    Vec<Project>,
    StoreError,
>)
    ensures
        listed matches Ok(projects) ==> stored_projects(views(projects@)),
        listed matches Err(e) ==> e is Storage,
{
    let mut projects: Vec<Project> = Vec::new();
    while projects.len() < usize::MAX
        invariant
            stored_projects(views(projects@)),
        decreases usize::MAX - projects.len(),
    {
        match next_row(rows) {
            Err(error) => {
                return Err(storage_error(&error));
            },
            Ok(None) => {
                return Ok(projects);
            },
            Ok(Some(row)) => match read_project(row) {
                Ok(project) => {
                    let ghost before = projects@;
                    projects.push(project);
                    assert(views(projects@) =~= views(before).push(project@));
                },
                Err(error) => {
                    return Err(storage_error(&error));
                },
            },
        }
    }
    Err(too_many_rows())
}

/// The steps that a cursor yields, in its order.  Fails at the first row
/// that cannot be fetched or read.
fn collect_steps(rows: &mut rusqlite::Rows<'_>) -> (listed: Result<
    Vec<Step>,
    StoreError,
>)
    ensures
        listed matches Ok(steps) ==> stored_steps(views(steps@)),
        listed matches Err(e) ==> e is Storage,
{
    let mut steps: Vec<Step> = Vec::new();
    while steps.len() < usize::MAX
        invariant
            stored_steps(views(steps@)),
        decreases usize::MAX - steps.len(),
    {
        match next_row(rows) {
            Err(error) => {
                return Err(storage_error(&error));
            },
            Ok(None) => {
                return Ok(steps);
            },
            Ok(Some(row)) => match read_step(row) {
                Ok(step) => {
                    let ghost before = steps@;
                    steps.push(step);
                    assert(views(steps@) =~= views(before).push(step@));
                },
                Err(error) => {
                    return Err(storage_error(&error));
                },
            },
        }
    }
    Err(too_many_rows())
}

/// The notes that a cursor yields, in its order.  Fails at the first row
/// that cannot be fetched or read.
fn collect_notes(rows: &mut rusqlite::Rows<'_>) -> (listed: Result<
    Vec<Note>,
    StoreError,
>)
    ensures
        listed matches Err(e) ==> e is Storage,
{
    let mut notes: Vec<Note> = Vec::new();
    while notes.len() < usize::MAX
        decreases usize::MAX - notes.len(),
    {
        match next_row(rows) {
            Err(error) => {
                return Err(storage_error(&error));
            },
            Ok(None) => {
                return Ok(notes);
            },
            Ok(Some(row)) => match read_note(row) {
                Ok(note) => {
                    notes.push(note);
                },
                Err(error) => {
                    return Err(storage_error(&error));
                },
            },
        }
    }
    Err(too_many_rows())
}

/// The attachments that a cursor yields, in its order.  Fails at the first
/// row that cannot be fetched or read.
fn collect_attachments(rows: &mut rusqlite::Rows<'_>) -> (listed: Result<
    Vec<ImageAttachment>,
    StoreError,
>)
    ensures
        listed matches Err(e) ==> e is Storage,
{
    let mut attachments: Vec<ImageAttachment> = Vec::new();
    while attachments.len() < usize::MAX
        decreases usize::MAX - attachments.len(),
    {
        match next_row(rows) {
            Err(error) => {
                return Err(storage_error(&error));
            },
            Ok(None) => {
                return Ok(attachments);
            },
            Ok(Some(row)) => match read_attachment(row) {
                Ok(attachment) => {
                    attachments.push(attachment);
                },
                Err(error) => {
                    return Err(storage_error(&error));
                },
            },
        }
    }
    Err(too_many_rows())
}

/// What the engine answers to a query for the greatest generation: the
/// number in the first row, and nothing where no row comes.
pub(crate) fn fetch_generation(conn: &rusqlite::Connection, asked: &Query) -> (read: Result<
    Option<i32>,
    StoreError,
>)
    requires
        asked@.kind == QueryKind::Generation,
    ensures
        read matches Err(e) ==> e is Storage,
{
    let mut prepared = match prepare(conn, asked.kind.sql()) {
        Ok(prepared) => prepared,
        Err(error) => {
            return Err(storage_error(&error));
        },
    };
    let mut rows = match query(&mut prepared, &asked.params) {
        Ok(rows) => rows,
        Err(error) => {
            return Err(storage_error(&error));
        },
    };
    match next_row(&mut rows) {
        Err(error) => Err(storage_error(&error)),
        Ok(None) => Ok(None),
        Ok(Some(row)) => match column_integer(row, 0) {
            Ok(greatest) => Ok(Some(greatest)),
            Err(error) => Err(storage_error(&error)),
        },
    }
}

/// The projects that the engine answers a query for projects with, in its
/// order.
pub(crate) fn fetch_projects(conn: &rusqlite::Connection, asked: &Query) -> (listed: Result<
    Vec<Project>,
    StoreError,
>)
    requires
        asked@.kind == QueryKind::Projects,
    ensures
        listed matches Ok(projects) ==> stored_projects(views(projects@)),
        listed matches Err(e) ==> e is Storage,
{
    let mut prepared = match prepare(conn, asked.kind.sql()) {
        Ok(prepared) => prepared,
        Err(error) => {
            return Err(storage_error(&error));
        },
    };
    let mut rows = match query(&mut prepared, &asked.params) {
        Ok(rows) => rows,
        Err(error) => {
            return Err(storage_error(&error));
        },
    };
    collect_projects(&mut rows)
}

/// The steps that the engine answers a query for steps with, in its order.
pub(crate) fn fetch_steps(conn: &rusqlite::Connection, asked: &Query) -> (listed: Result<
    Vec<Step>,
    StoreError,
>)
    requires
        asked@.kind == QueryKind::StepsOfProject || asked@.kind == QueryKind::Steps,
    ensures
        listed matches Ok(steps) ==> stored_steps(views(steps@)),
        listed matches Err(e) ==> e is Storage,
{
    let mut prepared = match prepare(conn, asked.kind.sql()) {
        Ok(prepared) => prepared,
        Err(error) => {
            return Err(storage_error(&error));
        },
    };
    let mut rows = match query(&mut prepared, &asked.params) {
        Ok(rows) => rows,
        Err(error) => {
            return Err(storage_error(&error));
        },
    };
    collect_steps(&mut rows)
}

/// The notes that the engine answers a query for notes with, in its order.
pub(crate) fn fetch_notes(conn: &rusqlite::Connection, asked: &Query) -> (listed: Result<
    Vec<Note>,
    StoreError,
>)
    requires
        asked@.kind == QueryKind::NotesOfProject,
    ensures
        listed matches Err(e) ==> e is Storage,
{
    let mut prepared = match prepare(conn, asked.kind.sql()) {
        Ok(prepared) => prepared,
        Err(error) => {
            return Err(storage_error(&error));
        },
    };
    let mut rows = match query(&mut prepared, &asked.params) {
        Ok(rows) => rows,
        Err(error) => {
            return Err(storage_error(&error));
        },
    };
    collect_notes(&mut rows)
}

/// The attachments that the engine answers a query for attachments with,
/// in its order.
pub(crate) fn fetch_attachments(conn: &rusqlite::Connection, asked: &Query) -> (listed: Result<
    Vec<ImageAttachment>,
    StoreError,
>)
    requires
        asked@.kind == QueryKind::AttachmentsOfOwner,
    ensures
        listed matches Err(e) ==> e is Storage,
{
    let mut prepared = match prepare(conn, asked.kind.sql()) {
        Ok(prepared) => prepared,
        Err(error) => {
            return Err(storage_error(&error));
        },
    };
    let mut rows = match query(&mut prepared, &asked.params) {
        Ok(rows) => rows,
        Err(error) => {
            return Err(storage_error(&error));
        },
    };
    collect_attachments(&mut rows)
}

} // verus!
