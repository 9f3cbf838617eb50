//! The plain values that statements bind and rows hold.

use crate::error::SqlError;
use vstd::prelude::*;

verus! {

/// One value of the backend: what a parameter binds and what a column of a
/// row holds.
#[derive(Debug)]
pub enum SqlValue {
    Null,
    Integer(i64),
    Text(String),
    Blob(Vec<u8>),
    /// A value that is there and that the library does not hold: a real
    /// number, or a text that is not valid UTF-8. No type reads it, so a row
    /// with such a column is unreadable where the column is asked for, and
    /// the rows beside it are not touched. Bound as a parameter it is null.
    Other,
}

/// One row of a result: the values of its columns, in order.
#[derive(Debug)]
pub struct Row {
    pub values: Vec<SqlValue>,
}

impl Row {
    /// The value of the column at `index`, or the error that says that the row
    /// has no such column.
    pub open spec fn cell(&self, index: usize) -> Result<SqlValue, SqlError> {
        if index < self.values.len() {
            Ok(self.values[index as int])
        } else {
            Err(SqlError::InvalidColumnIndex(index))
        }
    }

    /// The value of the column at `index`.
    pub fn get(&self, index: usize) -> (value: Result<&SqlValue, SqlError>)
        ensures
            match value {
                Ok(v) => self.cell(index) == Ok::<SqlValue, SqlError>(*v),
                Err(e) => self.cell(index) == Err::<SqlValue, SqlError>(e),
            },
    {
        if index < self.values.len() {
            Ok(&self.values[index])
        } else {
            Err(SqlError::InvalidColumnIndex(index))
        }
    }
}

} // verus!
