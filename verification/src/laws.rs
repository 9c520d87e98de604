//! What holds of the store, proved over [`crate::model`].

pub mod batch;
pub mod create;
pub mod delete;
pub mod identity;
pub mod ledger;
pub mod listed;
pub mod lists;
pub mod replay;
