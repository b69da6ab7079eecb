//! Why an `UPDATE` statement could not be planned.
use vstd::prelude::*;

verus! {

/// The reasons for which planning an `UPDATE` statement fails.
#[derive(Clone, Debug, PartialEq, Eq)]
pub enum UpdateError {
    /// The statement has a `WITH` clause.
    WithNotSupported,
    /// The statement has an `OR <conflict>` clause.
    OnConflictNotSupported,
    /// No table of the catalog has this name.
    NoSuchTable(String),
    /// The named table exists but is not stored in a B-tree.
    NotBTreeTable(String),
    /// A `SET` target names no column of the table.
    ColumnNotFound { column: String, table: String },
    /// An identifier in an expression names no column in scope.
    NoSuchColumn(String),
    /// A `RETURNING` column is not a plain expression (`*`, `t.*`).
    ReturningNotExpression,
    /// The `LIMIT` count is not an integer literal.
    InvalidLimit,
    /// The `OFFSET` is not an integer literal.
    InvalidOffset,
}

} // verus!
