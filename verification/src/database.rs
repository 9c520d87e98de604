//! The store: one connection, and the repository operations on it.
//!
//! A [`Database`] owns its connection, so whoever holds the `Database`
//! exclusively holds the connection exclusively.  Its view is the journal:
//! the mutations that the engine has acknowledged since the store was
//! opened, oldest first, with the begin, the commit and the rollback of
//! each transaction among them.  What a journal means for the rows of a
//! store is written down in [`crate::model`].
//!
//! An entry of the journal is made of a receipt, and a receipt is made
//! where the engine acknowledges a call (see [`crate::journal`] and
//! [`crate::engine`]): no operation below can enter what it has not handed
//! to the engine.

use vstd::pervasive::unreached;
use vstd::prelude::*;
use crate::batch::{
    abandoned_batch, batch_action, begun, committed, committed_batch, rolled_back, BatchAction,
};
use crate::attachment::{
    delete_attachment, delete_attachments_of_owner, insert_attachment, is_owner_kind,
    ImageAttachment,
};
use crate::encoding::text_of_str;
use crate::engine::{
    begin, commit, execute, open_connection, rollback, store_file_exists, Receipt, ReceiptView,
};
use crate::error::StoreError;
use crate::journal::Journal;
use crate::listing::{
    accept_attachments_of_owner, accept_notes_of_project, accept_projects, accept_steps,
    accept_steps_of_project, ascending_steps, attachments_within,
    newest_first_notes, newest_first_projects, notes_within, oldest_first_attachments,
    stored_projects, stored_steps, steps_within, views,
};
use crate::mutation::{mutations_of, Mutation, MutationKind, MutationView, SqlValue};
use crate::note::{delete_note, insert_note, update_note, Note};
use crate::project::{
    delete_project_plan, insert_project, set_current_step, update_project, Project,
};
use crate::query::{
    attachments_of_owner_query, fetch_attachments, fetch_generation, fetch_notes,
    fetch_projects, fetch_steps, generation_query, notes_of_project_query, projects_query,
    steps_of_project_query, steps_query, storage_error, Query, QueryKind,
};
use crate::schema::{
    initial_schema, initializing_mutations, migration_mutations, migration_plan,
    migration_plan_is_exact, opening_plan, reported_generation, stamp, stamp_mutation,
    upgrade_plan, LATEST_GENERATION,
};
use crate::step::{delete_step, insert_step, update_step, update_steps, Step};

verus! {

/// An open store.
pub struct Database {
    conn: rusqlite::Connection,
    journal: Journal,
}

impl View for Database {
    type V = Seq<MutationView>;

    closed spec fn view(&self) -> Seq<MutationView> {
        self.journal@
    }
}

/// The steps that the engine answers `asked` with, held to the project that
/// `asked` itself binds.
fn steps_of_asked_project(conn: &rusqlite::Connection, asked: &Query) -> (listed: Result<
    Vec<Step>,
    StoreError,
>)
    requires
        asked@.kind == QueryKind::StepsOfProject,
        asked@.params.len() == 1,
        asked@.params[0] is Text,
    ensures
        listed matches Ok(steps) ==> steps_within(views(steps@), asked@.params[0].text())
            && ascending_steps(views(steps@)) && stored_steps(views(steps@)),
        listed matches Err(e) ==> e is Storage || e is UnexpectedRows,
{
    let fetched = fetch_steps(conn, asked)?;
    match &asked.params[0] {
        SqlValue::Text(project_id) => accept_steps_of_project(fetched, project_id.as_str()),
        SqlValue::Integer(_) => unreached(),
    }
}

/// The steps that the engine answers `asked`, the query for every step,
/// with, held to the order of that listing.
fn every_asked_step(conn: &rusqlite::Connection, asked: &Query) -> (listed: Result<
    Vec<Step>,
    StoreError,
>)
    requires
        asked@.kind == QueryKind::Steps,
    ensures
        listed matches Ok(steps) ==> ascending_steps(views(steps@)) && stored_steps(views(steps@)),
        listed matches Err(e) ==> e is Storage || e is UnexpectedRows,
{
    let fetched = fetch_steps(conn, asked)?;
    accept_steps(fetched)
}

/// The notes that the engine answers `asked` with, held to the project that
/// `asked` itself binds.
fn notes_of_asked_project(conn: &rusqlite::Connection, asked: &Query) -> (listed: Result<
    Vec<Note>,
    StoreError,
>)
    requires
        asked@.kind == QueryKind::NotesOfProject,
        asked@.params.len() == 1,
        asked@.params[0] is Text,
    ensures
        listed matches Ok(notes) ==> notes_within(views(notes@), asked@.params[0].text())
            && newest_first_notes(views(notes@)),
        listed matches Err(e) ==> e is Storage || e is UnexpectedRows,
{
    let fetched = fetch_notes(conn, asked)?;
    match &asked.params[0] {
        SqlValue::Text(project_id) => accept_notes_of_project(fetched, project_id.as_str()),
        SqlValue::Integer(_) => unreached(),
    }
}

/// The attachments that the engine answers `asked` with, held to the owner
/// that `asked` itself binds: its first value is the owner's id, its second
/// the owner's kind.
fn attachments_of_asked_owner(conn: &rusqlite::Connection, asked: &Query) -> (listed: Result<
    Vec<ImageAttachment>,
    StoreError,
>)
    requires
        asked@.kind == QueryKind::AttachmentsOfOwner,
        asked@.params.len() == 2,
        asked@.params[0] is Text,
        asked@.params[1] is Text,
    ensures
        listed matches Ok(attachments) ==> attachments_within(
            views(attachments@),
            asked@.params[0].text(),
            asked@.params[1].text(),
        ) && oldest_first_attachments(views(attachments@)),
        listed matches Err(e) ==> e is Storage || e is UnexpectedRows,
{
    let fetched = fetch_attachments(conn, asked)?;
    match (&asked.params[0], &asked.params[1]) {
        (SqlValue::Text(content_id), SqlValue::Text(content_type_enum)) => {
            accept_attachments_of_owner(fetched, content_id.as_str(), content_type_enum.as_str())
        },
        _ => unreached(),
    }
}

/// Hands one mutation to the engine and gives the receipt where the engine
/// acknowledges it.
fn submit<'a>(conn: &rusqlite::Connection, mutation: &'a Mutation) -> (done: Result<
    Receipt<'a>,
    StoreError,
>)
    ensures
        done matches Ok(receipt) ==> receipt@ == (ReceiptView::Statement {
            text: mutation@.kind.text(),
            params: mutation@.params,
        }),
        done matches Err(e) ==> e is Storage,
{
    match execute(conn, mutation.kind.sql(), &mutation.params) {
        Ok(receipt) => Ok(receipt),
        Err(error) => Err(storage_error(&error)),
    }
}

impl Database {
    /// Hands one mutation to the engine and enters it in the journal if the
    /// engine acknowledges it.
    fn run(&mut self, mutation: &Mutation) -> (done: Result<usize, StoreError>)
        ensures
            done is Ok ==> final(self)@ == old(self)@.push(mutation@),
            done matches Err(e) ==> final(self)@ == old(self)@ && e is Storage,
    {
        let receipt = submit(&self.conn, mutation)?;
        let changed = self.journal.record(receipt, mutation.kind);
        Ok(changed)
    }

    /// Runs a plan in order and stops at the first mutation that fails.
    fn run_all(&mut self, plan: &Vec<Mutation>) -> (done: Result<(), StoreError>)
        ensures
            done is Ok ==> final(self)@ == old(self)@ + mutations_of(plan@),
            done matches Err(e) ==> e is Storage && exists|k: int|
                0 <= k < plan.len() && final(self)@ == old(self)@ + #[trigger] mutations_of(
                    plan@,
                ).take(k),
    {
        let mut i: usize = 0;
        assert(self@ =~= old(self)@ + mutations_of(plan@).take(0));
        while i < plan.len()
            invariant
                i <= plan.len(),
                self@ == old(self)@ + mutations_of(plan@).take(i as int),
            decreases plan.len() - i,
        {
            match self.run(&plan[i]) {
                Ok(_) => {},
                Err(error) => {
                    return Err(error);
                },
            }
            assert(mutations_of(plan@).take(i + 1) =~= mutations_of(plan@).take(i as int).push(
                plan@[i as int]@,
            ));
            assert(self@ =~= old(self)@ + mutations_of(plan@).take(i + 1));
            i += 1;
        }
        assert(mutations_of(plan@).take(plan.len() as int) =~= mutations_of(plan@));
        Ok(())
    }

    /// The generation that the ledger reports: its greatest entry, and 0
    /// where the ledger has no entry.  A ledger that cannot be read is an
    /// error, not generation 0.
    pub fn get_schema_version(&self) -> (read: Result<i32, StoreError>)
        ensures
            read matches Err(e) ==> e is Storage,
    {
        let fetched = fetch_generation(&self.conn, &generation_query())?;
        Ok(reported_generation(fetched))
    }

    /// Writes `version` to the ledger.  Whether it is above what the ledger
    /// holds is for the caller to see to.
    pub fn set_schema_version(&mut self, version: i32) -> (done: Result<(), StoreError>)
        ensures
            done is Ok ==> final(self)@ == old(self)@.push(stamp(version)),
            done matches Err(e) ==> final(self)@ == old(self)@ && e is Storage,
    {
        self.run(&stamp_mutation(version))?;
        Ok(())
    }

    /// Gives a store that has no table its schema: creates every table in
    /// its latest shape and then stamps the ledger with the latest
    /// generation, so that no migration is ever run on it.  Stops at the
    /// first mutation that the engine refuses; the stamp is the last.
    pub fn create_initial_schema(&mut self) -> (done: Result<(), StoreError>)
        ensures
            done is Ok ==> final(self)@ == old(self)@ + initial_schema().push(
                stamp(LATEST_GENERATION),
            ),
            done matches Err(e) ==> e is Storage && exists|k: int|
                0 <= k <= initial_schema().len() && final(self)@ == old(self)@
                    + #[trigger] initial_schema().push(stamp(LATEST_GENERATION)).take(k),
    {
        let plan = initializing_mutations();
        let done = self.run_all(&plan);
        proof {
            let whole = initial_schema().push(stamp(LATEST_GENERATION));
            assert(mutations_of(plan@) == whole);
            assert(whole.len() == initial_schema().len() + 1);
            if done is Err {
                let k = choose|k: int|
                    0 <= k < plan.len() && self@ == old(self)@ + #[trigger] mutations_of(
                        plan@,
                    ).take(k);
                assert(self@ == old(self)@ + whole.take(k));
            }
        }
        done
    }

    /// Brings a store whose ledger reports `current_version` to the latest
    /// generation: runs, in ascending order, each migration whose target is
    /// above `current_version`, and stamps the ledger after each.  Stops at
    /// the first mutation that the engine refuses; what ran before it stays.
    /// Hands nothing to the engine where `current_version` is the latest
    /// generation or above it.
    pub fn apply_migrations(&mut self, current_version: i32) -> (done: Result<(), StoreError>)
        ensures
            done is Ok ==> final(self)@ == old(self)@ + migration_plan(current_version),
            done matches Err(e) ==> e is Storage && exists|k: int|
                0 <= k < migration_plan(current_version).len() && final(self)@ == old(self)@
                    + #[trigger] migration_plan(current_version).take(k),
            current_version >= LATEST_GENERATION ==> done is Ok && final(self)@ == old(self)@,
    {
        let plan = migration_mutations(current_version);
        proof {
            migration_plan_is_exact(current_version);
        }
        self.run_all(&plan)
    }

    /// Brings a store whose ledger table is there to the latest generation:
    /// a store that was not there before is given its schema and its stamp,
    /// a store that was there the migrations above `found`, the generation
    /// that its ledger reported.
    pub fn upgrade(&mut self, existed: bool, found: i32) -> (done: Result<(), StoreError>)
        ensures
            done is Ok ==> final(self)@ == old(self)@ + upgrade_plan(existed, found),
            done matches Err(e) ==> e is Storage && exists|k: int|
                0 <= k < upgrade_plan(existed, found).len() && final(self)@ == old(self)@
                    + #[trigger] upgrade_plan(existed, found).take(k),
            existed && found >= LATEST_GENERATION ==> done is Ok && final(self)@ == old(self)@,
    {
        if existed {
            let done = self.apply_migrations(found);
            proof {
                if done is Err {
                    let k = choose|k: int|
                        0 <= k < migration_plan(found).len() && self@ == old(self)@
                            + #[trigger] migration_plan(found).take(k);
                    assert(self@ == old(self)@ + upgrade_plan(existed, found).take(k));
                }
            }
            done
        } else {
            let done = self.create_initial_schema();
            proof {
                if done is Err {
                    let k = choose|k: int|
                        0 <= k <= initial_schema().len() && self@ == old(self)@
                            + #[trigger] initial_schema().push(stamp(LATEST_GENERATION)).take(k);
                    assert(upgrade_plan(existed, found).len() == initial_schema().len() + 1);
                    assert(self@ == old(self)@ + upgrade_plan(existed, found).take(k));
                }
            }
            done
        }
    }

    /// Prepares a connection that was just opened.  `existed` says whether
    /// the store was there before it was opened.  The ledger table is made
    /// sure of, the ledger is read, and the store is brought to the latest
    /// generation from what the ledger reported.
    pub fn initialize(conn: rusqlite::Connection, existed: bool) -> (opened: Result<
        Database,
        StoreError,
    >)
        ensures
            opened matches Ok(db) ==> exists|found: i32|
                db@ == #[trigger] opening_plan(existed, found),
            opened matches Err(e) ==> e is Storage,
    {
        let mut db = Database { conn, journal: Journal::new() };
        db.run(&Mutation::bare(MutationKind::CreateLedger))?;
        let found = db.get_schema_version()?;
        db.upgrade(existed, found)?;
        assert(db@ =~= opening_plan(existed, found));
        Ok(db)
    }

    /// Opens the store at `db_path`, creating it where no file is there yet.
    pub fn new(db_path: &std::path::PathBuf) -> (opened: Result<Database, StoreError>)
        ensures
            opened matches Ok(db) ==> exists|existed: bool, found: i32|
                db@ == #[trigger] opening_plan(existed, found),
            opened matches Err(e) ==> e is Storage,
    {
        let existed = store_file_exists(db_path);
        let conn = match open_connection(db_path) {
            Ok(conn) => conn,
            Err(error) => {
                return Err(storage_error(&error));
            },
        };
        Database::initialize(conn, existed)
    }

    /// Every project, the one created last first.
    pub fn get_all_projects(&self) -> (listed: Result<Vec<Project>, StoreError>)
        ensures
            listed matches Ok(projects) ==> newest_first_projects(views(projects@))
                && stored_projects(views(projects@)),
            listed matches Err(e) ==> e is Storage || e is UnexpectedRows,
    {
        let fetched = fetch_projects(&self.conn, &projects_query())?;
        accept_projects(fetched)
    }

    /// Stores `project` as a new project.
    pub fn create_project(&mut self, project: &Project) -> (done: Result<(), StoreError>)
        ensures
            done is Ok ==> final(self)@ == old(self)@.push(insert_project(project@)),
            done matches Err(e) ==> final(self)@ == old(self)@ && e is Storage,
    {
        self.run(&project.insert_mutation())?;
        Ok(())
    }

    /// Overwrites the stored project that has the id of `project`.  Where
    /// none has it, the engine changes nothing and reports no error.
    pub fn update_project(&mut self, project: &Project) -> (done: Result<(), StoreError>)
        ensures
            done is Ok ==> final(self)@ == old(self)@.push(update_project(project@)),
            done matches Err(e) ==> final(self)@ == old(self)@ && e is Storage,
    {
        self.run(&project.update_mutation())?;
        Ok(())
    }

    /// Removes the project `project_id`: first its steps, then its notes,
    /// then the project.  Stops at the first removal that the engine
    /// refuses; the removals before it stay.
    pub fn delete_project(&mut self, project_id: &str) -> (done: Result<(), StoreError>)
        ensures
            done is Ok ==> final(self)@ == old(self)@ + delete_project_plan(project_id@),
            done matches Err(e) ==> e is Storage && exists|k: int|
                0 <= k < 3 && final(self)@ == old(self)@ + #[trigger] delete_project_plan(
                    project_id@,
                ).take(k),
    {
        let plan = Project::delete_mutations(project_id);
        let done = self.run_all(&plan);
        proof {
            assert(mutations_of(plan@).len() == 3);
            if done is Err {
                let k = choose|k: int|
                    0 <= k < plan.len() && self@ == old(self)@ + #[trigger] mutations_of(
                        plan@,
                    ).take(k);
                assert(self@ == old(self)@ + delete_project_plan(project_id@).take(k));
            }
        }
        done
    }

    /// Makes `step_id` the current step of the project `project_id`, or
    /// clears the current step where `step_id` is `None`.  Whether the step
    /// belongs to the project is for the caller to see to.
    pub fn update_project_current_step(&mut self, project_id: &str, step_id: Option<&str>) -> (done:
        Result<(), StoreError>)
        ensures
            done is Ok ==> final(self)@ == old(self)@.push(
                set_current_step(project_id@, text_of_str(step_id)),
            ),
            done matches Err(e) ==> final(self)@ == old(self)@ && e is Storage,
    {
        self.run(&Project::current_step_mutation(project_id, step_id))?;
        Ok(())
    }

    /// The steps of the project `project_id`, by ascending order index.  The
    /// engine decides which of two steps with one index comes first.
    pub fn get_steps_by_project(&self, project_id: &str) -> (listed: Result<Vec<Step>, StoreError>)
        ensures
            listed matches Ok(steps) ==> steps_within(views(steps@), project_id@)
                && ascending_steps(views(steps@)) && stored_steps(views(steps@)),
            listed matches Err(e) ==> e is Storage || e is UnexpectedRows,
    {
        steps_of_asked_project(&self.conn, &steps_of_project_query(project_id))
    }

    /// Every step, by ascending order index, whatever its project.  The
    /// engine decides which of two steps with one index comes first.
    pub fn get_all_steps(&self) -> (listed: Result<Vec<Step>, StoreError>)
        ensures
            listed matches Ok(steps) ==> ascending_steps(views(steps@)) && stored_steps(
                views(steps@),
            ),
            listed matches Err(e) ==> e is Storage || e is UnexpectedRows,
    {
        every_asked_step(&self.conn, &steps_query())
    }

    /// Stores `step` as a new step.
    pub fn create_step(&mut self, step: &Step) -> (done: Result<(), StoreError>)
        ensures
            done is Ok ==> final(self)@ == old(self)@.push(insert_step(step@)),
            done matches Err(e) ==> final(self)@ == old(self)@ && e is Storage,
    {
        self.run(&step.insert_mutation())?;
        Ok(())
    }

    /// Overwrites the stored step that has the id of `step`.  Where none has
    /// it, the engine changes nothing and reports no error.
    pub fn update_step(&mut self, step: &Step) -> (done: Result<(), StoreError>)
        ensures
            done is Ok ==> final(self)@ == old(self)@.push(update_step(step@)),
            done matches Err(e) ==> final(self)@ == old(self)@ && e is Storage,
    {
        self.run(&step.update_mutation())?;
        Ok(())
    }

    /// Overwrites the stored steps that have the ids of `steps`, all of them
    /// or none.  A transaction is begun; the updates are handed to the
    /// engine in the order of `steps`; after the last the transaction is
    /// committed, and at the first that the engine refuses it is rolled
    /// back.  The journal gains the begin, each update and the commit as
    /// they are acknowledged; after a failure it holds no commit, so that
    /// nothing of the batch counts.
    pub fn update_steps_batch(&mut self, steps: &[Step]) -> (done: Result<(), StoreError>)
        ensures
            done is Ok ==> final(self)@ == old(self)@ + committed_batch(steps@),
            done matches Err(e) ==> e is Storage && (final(self)@ == old(self)@ || exists|
                k: int,
                undone: bool,
            |
                0 <= k <= steps.len() && final(self)@ == old(self)@ + #[trigger] abandoned_batch(
                    steps@,
                    k,
                    undone,
                )),
    {
        let transaction = match begin(&self.conn) {
            Ok((transaction, receipt)) => {
                self.journal.record_begin(receipt);
                transaction
            },
            Err(error) => {
                return Err(storage_error(&error));
            },
        };
        let mut acknowledged: usize = 0;
        let mut refusal: Option<StoreError> = None;
        assert(self@ =~= old(self)@ + abandoned_batch(steps@, 0, false));
        loop
            invariant
                acknowledged <= steps.len(),
                self@ == old(self)@ + abandoned_batch(steps@, acknowledged as int, false),
                refusal matches Some(e) ==> e is Storage,
            decreases
                    2 * (steps.len() - acknowledged) + (if refusal is None {
                        1int
                    } else {
                        0int
                    }),
        {
            match batch_action(acknowledged, steps.len(), refusal.is_some()) {
                BatchAction::Update(place) => {
                    let update = steps[place].update_mutation();
                    match submit(&self.conn, &update) {
                        Ok(receipt) => {
                            self.journal.record(receipt, update.kind);
                            assert(self@ =~= old(self)@ + abandoned_batch(
                                steps@,
                                acknowledged + 1,
                                false,
                            ));
                            acknowledged += 1;
                        },
                        Err(error) => {
                            refusal = Some(error);
                        },
                    }
                },
                BatchAction::Commit => {
                    match commit(transaction) {
                        Ok(receipt) => {
                            self.journal.record_commit(receipt);
                        },
                        Err(error) => {
                            return Err(storage_error(&error));
                        },
                    }
                    assert(update_steps(steps@).take(acknowledged as int) =~= update_steps(
                        steps@,
                    ));
                    assert(self@ =~= old(self)@ + committed_batch(steps@));
                    return Ok(());
                },
                BatchAction::RollBack => {
                    match rollback(transaction) {
                        Ok(receipt) => {
                            self.journal.record_rollback(receipt);
                            assert(self@ =~= old(self)@ + abandoned_batch(
                                steps@,
                                acknowledged as int,
                                true,
                            ));
                        },
                        Err(_) => {},
                    }
                    return Err(refusal.unwrap());
                },
            }
        }
    }

    /// Removes the step `step_id`.
    pub fn delete_step(&mut self, step_id: &str) -> (done: Result<(), StoreError>)
        ensures
            done is Ok ==> final(self)@ == old(self)@.push(delete_step(step_id@)),
            done matches Err(e) ==> final(self)@ == old(self)@ && e is Storage,
    {
        self.run(&Step::delete_mutation(step_id))?;
        Ok(())
    }

    /// The notes of the project `project_id`, the one created last first.
    pub fn get_notes_by_project(&self, project_id: &str) -> (listed: Result<Vec<Note>, StoreError>)
        ensures
            listed matches Ok(notes) ==> notes_within(views(notes@), project_id@)
                && newest_first_notes(views(notes@)),
            listed matches Err(e) ==> e is Storage || e is UnexpectedRows,
    {
        notes_of_asked_project(&self.conn, &notes_of_project_query(project_id))
    }

    /// Stores `note` as a new note.
    pub fn create_note(&mut self, note: &Note) -> (done: Result<(), StoreError>)
        ensures
            done is Ok ==> final(self)@ == old(self)@.push(insert_note(note@)),
            done matches Err(e) ==> final(self)@ == old(self)@ && e is Storage,
    {
        self.run(&note.insert_mutation())?;
        Ok(())
    }

    /// Overwrites the stored note that has the id of `note`.  Where none has
    /// it, the engine changes nothing and reports no error.
    pub fn update_note(&mut self, note: &Note) -> (done: Result<(), StoreError>)
        ensures
            done is Ok ==> final(self)@ == old(self)@.push(update_note(note@)),
            done matches Err(e) ==> final(self)@ == old(self)@ && e is Storage,
    {
        self.run(&note.update_mutation())?;
        Ok(())
    }

    /// Removes the note `note_id`.
    pub fn delete_note(&mut self, note_id: &str) -> (done: Result<(), StoreError>)
        ensures
            done is Ok ==> final(self)@ == old(self)@.push(delete_note(note_id@)),
            done matches Err(e) ==> final(self)@ == old(self)@ && e is Storage,
    {
        self.run(&Note::delete_mutation(note_id))?;
        Ok(())
    }

    /// The attachments of the owner `content_id` of kind
    /// `content_type_enum`, the one created first first.  An attachment of
    /// another owner is never among them, also not one of an owner of
    /// another kind that has the same id.
    pub fn get_image_attachments_by_content(
        &self,
        content_id: &str,
        content_type_enum: &str,
    ) -> (listed: Result<Vec<ImageAttachment>, StoreError>)
        ensures
            listed matches Ok(attachments) ==> attachments_within(
                views(attachments@),
                content_id@,
                content_type_enum@,
            ) && oldest_first_attachments(views(attachments@)),
            listed matches Err(e) ==> e is Storage || e is UnexpectedRows,
    {
        attachments_of_asked_owner(
            &self.conn,
            &attachments_of_owner_query(content_id, content_type_enum),
        )
    }

    /// Stores `attachment` as a new attachment.  One that names no kind of
    /// owner is refused before the engine sees it.
    pub fn create_image_attachment(&mut self, attachment: &ImageAttachment) -> (done: Result<
        (),
        StoreError,
    >)
        ensures
            done is Ok ==> final(self)@ == old(self)@.push(insert_attachment(attachment@)),
            done is Err ==> final(self)@ == old(self)@,
            !is_owner_kind(attachment@.content_type_enum) <==> done matches Err(
                StoreError::InvalidOwnerKind(_),
            ),
            done matches Err(StoreError::InvalidOwnerKind(name)) ==> name@
                == attachment@.content_type_enum,
            done matches Err(e) ==> e is InvalidOwnerKind || e is Storage,
    {
        if attachment.owner_kind().is_none() {
            return Err(StoreError::InvalidOwnerKind(attachment.content_type_enum.clone()));
        }
        self.run(&attachment.insert_mutation())?;
        Ok(())
    }

    /// Removes the attachment `attachment_id`.
    pub fn delete_image_attachment(&mut self, attachment_id: &str) -> (done: Result<
        (),
        StoreError,
    >)
        ensures
            done is Ok ==> final(self)@ == old(self)@.push(delete_attachment(attachment_id@)),
            done matches Err(e) ==> final(self)@ == old(self)@ && e is Storage,
    {
        self.run(&ImageAttachment::delete_mutation(attachment_id))?;
        Ok(())
    }

    /// Removes the attachments of the owner `content_id` of kind
    /// `content_type_enum`.
    pub fn delete_image_attachments_by_content(
        &mut self,
        content_id: &str,
        content_type_enum: &str,
    ) -> (done: Result<(), StoreError>)
        ensures
            done is Ok ==> final(self)@ == old(self)@.push(
                delete_attachments_of_owner(content_id@, content_type_enum@),
            ),
            done matches Err(e) ==> final(self)@ == old(self)@ && e is Storage,
    {
        self.run(&ImageAttachment::delete_of_owner_mutation(content_id, content_type_enum))?;
        Ok(())
    }
}

} // verus!
