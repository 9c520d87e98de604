//! The one error type of the library.

use vstd::prelude::*;
use vstd::string::StringExecFns;

verus! {

pub const INVALID_OWNER_KIND_PREFIX: &'static str = "not an owner kind: ";

pub const UNEXPECTED_ROWS_PREFIX: &'static str = "rows out of place in the listing of ";

/// Why an operation on the store failed.
#[derive(Debug, Clone, PartialEq, Eq)]
pub enum StoreError {
    /// The engine refused the request or failed at it, or answered with
    /// more than the library can hold; the text describes what happened,
    /// in the engine's own words where the engine failed.
    Storage(String),
    /// An attachment named an owner kind outside the closed set; the text is
    /// the kind it named.
    InvalidOwnerKind(String),
    /// The engine answered a listing with a record that the listing does
    /// not ask for, or with records in another order than it asks for; the
    /// text names the listing.
    UnexpectedRows(String),
}

impl StoreError {
    /// The message for a caller, as a specification.
    pub open spec fn message_text(self) -> Seq<char> {
        match self {
            StoreError::Storage(description) => description@,
            StoreError::InvalidOwnerKind(kind) => INVALID_OWNER_KIND_PREFIX@ + kind@,
            StoreError::UnexpectedRows(listing) => UNEXPECTED_ROWS_PREFIX@ + listing@,
        }
    }

    /// The message for a caller.
    pub fn message(&self) -> (text: String)
        ensures
            text@ == self.message_text(),
    {
        match self {
            StoreError::Storage(description) => description.clone(),
            StoreError::InvalidOwnerKind(kind) => {
                String::from_str(INVALID_OWNER_KIND_PREFIX).concat(kind.as_str())
            },
            StoreError::UnexpectedRows(listing) => {
                String::from_str(UNEXPECTED_ROWS_PREFIX).concat(listing.as_str())
            },
        }
    }
}

} // verus!
