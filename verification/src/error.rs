//! What can stop an archive run.

use vstd::prelude::*;

verus! {

/// The kinds of source value that the archive cannot hold.
#[derive(Debug, Clone, Copy, PartialEq, Eq, Structural)]
pub enum Unsupported {
    /// A date, with or without a time of day.
    Date,
    /// A duration or time of day.
    Time,
}

/// Why a copy was given up.
#[derive(Debug, PartialEq, Eq)]
pub enum Error {
    /// The MySQL source failed; holds what it reported.
    MySqlError(String),
    /// The SQLite sink failed; holds what it reported.
    SqliteError(String),
    /// A row held a value of a kind that has no place in the sink. No table of
    /// the archive selects such a column, so this tells of a schema that has
    /// drifted away from the table list.
    UnsupportedValue(Unsupported),
}

} // verus!
