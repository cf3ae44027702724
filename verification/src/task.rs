//! The task record held in a store snapshot, and the store's error
//! taxonomy.

use vstd::prelude::*;
use vstd::string::StringExecFns;

verus! {

/// One task from the store snapshot. Immutable once created: the core
/// only ever reads point-in-time copies fetched from the store.
#[derive(Clone, Debug, PartialEq, Eq)]
pub struct Task {
    /// Unique id, assigned by the store.
    pub id: u64,
    pub title: String,
    pub category: String,
    /// Creation time as whole seconds since the Unix epoch, UTC.
    pub created_at: i64,
}

/// Errors from the task store.
#[derive(Clone, Debug, PartialEq, Eq)]
pub enum Error {
    /// The store file is missing or unreadable; carries the I/O detail.
    ReadDBError(String),
    /// The store file holds malformed data; carries the parse detail.
    ParseDBError(String),
}

/// The one-line banner text shown for a store error.
pub open spec fn spec_error_message(e: Error) -> Seq<char> {
    match e {
        Error::ReadDBError(d) => "error reading the DB file: "@ + d@,
        Error::ParseDBError(d) => "error parsing the DB file: "@ + d@,
    }
}

impl Error {
    /// The one-line banner text for this error.
    pub fn message(&self) -> (r: String)
        ensures
            r@ == spec_error_message(*self),
    {
        match self {
            Error::ReadDBError(d) => String::from_str("error reading the DB file: ").concat(
                d.as_str(),
            ),
            Error::ParseDBError(d) => String::from_str("error parsing the DB file: ").concat(
                d.as_str(),
            ),
        }
    }
}

} // verus!
