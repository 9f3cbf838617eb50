//! Reading typed values out of rows.

use super::value::{Row, SqlValue};
use crate::error::SqlError;
use crate::timestamp::Timestamp;
use vstd::prelude::*;

verus! {

/// A type that one column value can be read as.
pub trait FromSql: Sized {
    /// What `value`, found in the column at `index`, is read as.
    spec fn converted(value: SqlValue, index: usize) -> Result<Self, SqlError>;

    fn column_result(value: &SqlValue, index: usize) -> (result: Result<Self, SqlError>)
        ensures
            result == Self::converted(*value, index),
    ;
}

impl FromSql for i64 {
    /// An integer is read as it is; anything else has the wrong type.
    open spec fn converted(value: SqlValue, index: usize) -> Result<Self, SqlError> {
        match value {
            SqlValue::Integer(i) => Ok(i),
            _ => Err(SqlError::InvalidColumnType(index)),
        }
    }

    fn column_result(value: &SqlValue, index: usize) -> (result: Result<Self, SqlError>) {
        match value {
            SqlValue::Integer(i) => Ok(*i),
            _ => Err(SqlError::InvalidColumnType(index)),
        }
    }
}

impl FromSql for u64 {
    /// An integer that is not negative is read as it is; a negative one is
    /// out of range; anything else has the wrong type.
    open spec fn converted(value: SqlValue, index: usize) -> Result<Self, SqlError> {
        match value {
            SqlValue::Integer(i) => if i >= 0 {
                Ok(i as u64)
            } else {
                Err(SqlError::IntegralValueOutOfRange(index, i))
            },
            _ => Err(SqlError::InvalidColumnType(index)),
        }
    }

    fn column_result(value: &SqlValue, index: usize) -> (result: Result<Self, SqlError>) {
        match value {
            SqlValue::Integer(i) => if *i >= 0 {
                Ok(*i as u64)
            } else {
                Err(SqlError::IntegralValueOutOfRange(index, *i))
            },
            _ => Err(SqlError::InvalidColumnType(index)),
        }
    }
}

impl FromSql for String {
    /// A text is read as it is; anything else has the wrong type.
    open spec fn converted(value: SqlValue, index: usize) -> Result<Self, SqlError> {
        match value {
            SqlValue::Text(text) => Ok(text),
            _ => Err(SqlError::InvalidColumnType(index)),
        }
    }

    fn column_result(value: &SqlValue, index: usize) -> (result: Result<Self, SqlError>) {
        match value {
            SqlValue::Text(text) => Ok(text.clone()),
            _ => Err(SqlError::InvalidColumnType(index)),
        }
    }
}

/// The moment that the stored integer `stored` stands for: the integer taken
/// as an unsigned count of microseconds.
pub open spec fn stored_micros(stored: i64) -> u64 {
    if stored >= 0 {
        stored as u64
    } else {
        (stored + 0x1_0000_0000_0000_0000) as u64
    }
}

/// The integer that the moment `micros` is stored as: the count of
/// microseconds taken as a signed integer of the same 64 bits.
pub open spec fn micros_stored(micros: u64) -> i64 {
    if micros <= 0x7fff_ffff_ffff_ffff {
        micros as i64
    } else {
        (micros - 0x1_0000_0000_0000_0000) as i64
    }
}

/// A moment that is stored and read back is the same moment.
pub proof fn lemma_stored_moment_reads_back(micros: u64)
    ensures
        stored_micros(micros_stored(micros)) == micros,
{
}

impl Timestamp {
    /// The integer that the moment is stored as.
    pub fn to_sql(&self) -> (stored: SqlValue)
        ensures
            stored == SqlValue::Integer(micros_stored(self.microseconds)),
    {
        let micros: u64 = self.microseconds;
        if micros <= 0x7fff_ffff_ffff_ffff {
            SqlValue::Integer(micros as i64)
        } else {
            SqlValue::Integer((micros as i128 - 0x1_0000_0000_0000_0000) as i64)
        }
    }
}

impl FromSql for Timestamp {
    /// An integer is read as a count of microseconds; anything else has the
    /// wrong type.
    open spec fn converted(value: SqlValue, index: usize) -> Result<Self, SqlError> {
        match value {
            SqlValue::Integer(i) => Ok(Timestamp { microseconds: stored_micros(i) }),
            _ => Err(SqlError::InvalidColumnType(index)),
        }
    }

    fn column_result(value: &SqlValue, index: usize) -> (result: Result<Self, SqlError>) {
        match value {
            SqlValue::Integer(i) => {
                let micros: u64 = if *i >= 0 {
                    *i as u64
                } else {
                    (*i as i128 + 0x1_0000_0000_0000_0000) as u64
                };
                Ok(Timestamp { microseconds: micros })
            },
            _ => Err(SqlError::InvalidColumnType(index)),
        }
    }
}

impl<T: FromSql> FromSql for Option<T> {
    /// The null value is read as `None`, any other as `T` reads it.
    open spec fn converted(value: SqlValue, index: usize) -> Result<Self, SqlError> {
        match value {
            SqlValue::Null => Ok(None),
            other => match T::converted(other, index) {
                Ok(inner) => Ok(Some(inner)),
                Err(error) => Err(error),
            },
        }
    }

    fn column_result(value: &SqlValue, index: usize) -> (result: Result<Self, SqlError>) {
        match value {
            SqlValue::Null => Ok(None),
            other => match T::column_result(other, index) {
                Ok(inner) => Ok(Some(inner)),
                Err(error) => Err(error),
            },
        }
    }
}

/// What the column at `index` of `row` is read as: the error of a missing
/// column, or what `T` makes of the value found there.
pub open spec fn field_of<T: FromSql>(row: Row, index: usize) -> Result<T, SqlError> {
    match row.cell(index) {
        Ok(value) => T::converted(value, index),
        Err(error) => Err(error),
    }
}

/// Reads the column at `index` of `row` as a `T`.
pub fn field<T: FromSql>(row: &Row, index: usize) -> (result: Result<T, SqlError>)
    ensures
        result == field_of::<T>(*row, index),
{
    match row.get(index) {
        Ok(value) => T::column_result(value, index),
        Err(error) => Err(error),
    }
}

/// A type that a whole row can be read as.
pub trait FromRow: Sized {
    /// What `row` is read as.
    spec fn decoded(row: Row) -> Result<Self, SqlError>;

    fn from_row(row: &Row) -> (result: Result<Self, SqlError>)
        ensures
            result == Self::decoded(*row),
    ;
}

impl FromRow for i64 {
    open spec fn decoded(row: Row) -> Result<Self, SqlError> {
        field_of::<i64>(row, 0)
    }

    fn from_row(row: &Row) -> (result: Result<Self, SqlError>) {
        field::<i64>(row, 0)
    }
}

impl FromRow for u64 {
    open spec fn decoded(row: Row) -> Result<Self, SqlError> {
        field_of::<u64>(row, 0)
    }

    fn from_row(row: &Row) -> (result: Result<Self, SqlError>) {
        field::<u64>(row, 0)
    }
}

impl FromRow for String {
    open spec fn decoded(row: Row) -> Result<Self, SqlError> {
        field_of::<String>(row, 0)
    }

    fn from_row(row: &Row) -> (result: Result<Self, SqlError>) {
        field::<String>(row, 0)
    }
}

impl<A: FromSql, B: FromSql> FromRow for (A, B) {
    /// The first two columns, read in order; the first failure is the result.
    open spec fn decoded(row: Row) -> Result<Self, SqlError> {
        match field_of::<A>(row, 0) {
            Err(error) => Err(error),
            Ok(a) => match field_of::<B>(row, 1) {
                Err(error) => Err(error),
                Ok(b) => Ok((a, b)),
            },
        }
    }

    fn from_row(row: &Row) -> (result: Result<Self, SqlError>) {
        match field::<A>(row, 0) {
            Err(error) => Err(error),
            Ok(a) => match field::<B>(row, 1) {
                Err(error) => Err(error),
                Ok(b) => Ok((a, b)),
            },
        }
    }
}

impl<A: FromSql, B: FromSql, C: FromSql> FromRow for (A, B, C) {
    /// The first three columns, read in order; the first failure is the result.
    open spec fn decoded(row: Row) -> Result<Self, SqlError> {
        match field_of::<A>(row, 0) {
            Err(error) => Err(error),
            Ok(a) => match field_of::<B>(row, 1) {
                Err(error) => Err(error),
                Ok(b) => match field_of::<C>(row, 2) {
                    Err(error) => Err(error),
                    Ok(c) => Ok((a, b, c)),
                },
            },
        }
    }

    fn from_row(row: &Row) -> (result: Result<Self, SqlError>) {
        match field::<A>(row, 0) {
            Err(error) => Err(error),
            Ok(a) => match field::<B>(row, 1) {
                Err(error) => Err(error),
                Ok(b) => match field::<C>(row, 2) {
                    Err(error) => Err(error),
                    Ok(c) => Ok((a, b, c)),
                },
            },
        }
    }
}

impl FromRow for () {
    /// Any row will do.
    open spec fn decoded(row: Row) -> Result<Self, SqlError> {
        Ok(())
    }

    fn from_row(row: &Row) -> (result: Result<Self, SqlError>) {
        Ok(())
    }
}

impl<T: FromSql> FromRow for Option<T> {
    open spec fn decoded(row: Row) -> Result<Self, SqlError> {
        field_of::<Option<T>>(row, 0)
    }

    fn from_row(row: &Row) -> (result: Result<Self, SqlError>) {
        field::<Option<T>>(row, 0)
    }
}

/// The rows that can be read as `T`, each as `T` reads it, in their order; a
/// row that cannot be read is left out.
pub open spec fn decoded_rows<T: FromRow>(rows: Seq<Row>) -> Seq<T>
    decreases rows.len(),
{
    if rows.len() == 0 {
        Seq::empty()
    } else {
        match T::decoded(rows.last()) {
            Ok(item) => decoded_rows::<T>(rows.drop_last()).push(item),
            Err(_) => decoded_rows::<T>(rows.drop_last()),
        }
    }
}

/// Reads every row that can be read as `T`, and skips the others.
pub fn decode_rows<T: FromRow>(rows: &Vec<Row>) -> (items: Vec<T>)
    ensures
        items@ == decoded_rows::<T>(rows@),
{
    let mut items: Vec<T> = Vec::new();
    let mut i: usize = 0;
    while i < rows.len()
        invariant
            i <= rows.len(),
            items@ == decoded_rows::<T>(rows@.take(i as int)),
        decreases rows.len() - i,
    {
        proof {
            assert(rows@.take(i + 1).drop_last() =~= rows@.take(i as int));
        }
        match T::from_row(&rows[i]) {
            Ok(item) => items.push(item),
            Err(_) => {},
        }
        i = i + 1;
    }
    assert(rows@.take(rows.len() as int) =~= rows@);
    items
}

/// No more items come out than rows went in.
pub proof fn lemma_decoded_rows_len<T: FromRow>(rows: Seq<Row>)
    ensures
        decoded_rows::<T>(rows).len() <= rows.len(),
    decreases rows.len(),
{
    if rows.len() > 0 {
        lemma_decoded_rows_len::<T>(rows.drop_last());
    }
}

/// Rows are read one by one: what comes of two runs of rows, one after the
/// other, is what comes of the first followed by what comes of the second.
pub proof fn lemma_decoded_rows_concat<T: FromRow>(first: Seq<Row>, second: Seq<Row>)
    ensures
        decoded_rows::<T>(first + second) == decoded_rows::<T>(first) + decoded_rows::<T>(second),
    decreases second.len(),
{
    if second.len() == 0 {
        assert(first + second =~= first);
        assert(decoded_rows::<T>(first) + decoded_rows::<T>(second) =~= decoded_rows::<T>(first));
    } else {
        let whole = first + second;
        assert(whole.drop_last() =~= first + second.drop_last());
        assert(whole.last() == second.last());
        lemma_decoded_rows_concat::<T>(first, second.drop_last());
        match T::decoded(second.last()) {
            Ok(item) => {
                assert(decoded_rows::<T>(whole) =~= decoded_rows::<T>(first) + decoded_rows::<T>(
                    second,
                ));
            },
            Err(_) => {},
        }
    }
}

/// A row that can be read stands in the result between what comes of the
/// rows before it and what comes of the rows after it.
pub proof fn lemma_readable_row_is_kept<T: FromRow>(before: Seq<Row>, good: Row, after: Seq<Row>)
    requires
        T::decoded(good) is Ok,
    ensures
        decoded_rows::<T>(before.push(good) + after) == decoded_rows::<T>(before).push(
            T::decoded(good)->Ok_0,
        ) + decoded_rows::<T>(after),
{
    lemma_decoded_rows_concat::<T>(before.push(good), after);
    assert(before.push(good).drop_last() =~= before);
}

/// A row that cannot be read changes nothing in the result, wherever it
/// stands among the rows.
pub proof fn lemma_unreadable_row_is_skipped<T: FromRow>(before: Seq<Row>, bad: Row, after: Seq<Row>)
    requires
        T::decoded(bad) is Err,
    ensures
        decoded_rows::<T>(before.push(bad) + after) == decoded_rows::<T>(before + after),
    decreases after.len(),
{
    if after.len() == 0 {
        assert(before.push(bad) + after =~= before.push(bad));
        assert(before + after =~= before);
        assert(before.push(bad).drop_last() =~= before);
    } else {
        let long = before.push(bad) + after;
        let short = before + after;
        assert(long.drop_last() =~= before.push(bad) + after.drop_last());
        assert(short.drop_last() =~= before + after.drop_last());
        assert(long.last() == after.last());
        assert(short.last() == after.last());
        lemma_unreadable_row_is_skipped::<T>(before, bad, after.drop_last());
    }
}

} // verus!
