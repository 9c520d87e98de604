//! Persistence core of a project / step / note tracker.
//!
//! The store is an embedded SQLite file reached through one connection.
//! What this crate decides is verified: which schema statements bring a
//! store to the latest generation, what each repository operation hands to
//! the engine, how stored columns become records again, and whether a list
//! that the engine answers with is the list that was asked for.  The engine
//! itself is reached through the small trusted layer in [`engine`].
//!
//! [`database`] holds the store and its operations; [`schema`] the table of
//! migrations; [`project`], [`step`], [`note`] and [`attachment`] the
//! records with their mutations; [`query`] what is asked of the engine and
//! [`listing`] what a listing owes; [`batch`] the course of a batch inside
//! its transaction; [`journal`] the record of what the engine has
//! acknowledged; [`model`] and [`laws`] the meaning of a journal of
//! mutations and what follows from it.

pub mod attachment;
pub mod batch;
pub mod database;
pub mod encoding;
pub mod engine;
pub mod error;
pub mod journal;
pub mod laws;
pub mod listing;
pub mod model;
pub mod mutation;
pub mod note;
pub mod project;
pub mod query;
pub mod schema;
pub mod step;
pub mod text;

pub use attachment::{ImageAttachment, ImageAttachmentView, OwnerKind};
pub use database::Database;
pub use error::StoreError;
pub use mutation::{Mutation, MutationKind, MutationView, SqlValue, SqlValueView};
pub use note::{Note, NoteView};
pub use project::{Project, ProjectView};
pub use step::{Step, StepView};
pub use text::text_equals;
