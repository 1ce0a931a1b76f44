//! The data model: the tables, their rows, and the statements over them.

pub mod blogs;
pub mod order;
pub mod seqs;
pub mod store;
pub mod tags;
pub mod time;
pub mod tokens;
pub mod users;

use vstd::prelude::*;

verus! {

/// Why a statement was refused.
#[derive(Clone, Copy, Debug, PartialEq, Eq, Structural)]
pub enum DataError {
    /// A statement that must return one row matched none.
    RowNotFound,
    /// The new row repeats a value that its table holds only once: a username,
    /// or a token string.
    UniqueViolation,
    /// The new row refers to a row that does not exist: a blog to its owner, or
    /// a tag to its blog. A token for a user that does not exist is reported as
    /// [`DataError::RowNotFound`].
    ForeignKeyViolation,
    /// The statement is not one: a bulk insert without a single row.
    InvalidStatement,
    /// A counter has reached the end of the 64-bit range: the row ids of a
    /// table, or the version of a row.
    OutOfRange,
    /// The password could not be hashed, so no row was written.
    PasswordHash,
    /// The store could not carry the statement out at all: a lost connection, or
    /// whatever else a store behind a network may report. The tables in memory
    /// never give this answer.
    Unavailable,
}

} // verus!
