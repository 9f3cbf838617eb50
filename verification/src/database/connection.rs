//! What a storage backend has to offer, and how contracts speak of its answers.

use super::value::{Row, SqlValue};
use crate::client::{Client, Record};
use crate::error::SqlError;
use vstd::prelude::*;

verus! {

/// A value of the backend as mathematics sees it.
pub enum SqlValueView {
    Null,
    Integer(int),
    Text(Seq<char>),
    Blob(Seq<u8>),
    Other,
}

impl View for SqlValue {
    type V = SqlValueView;

    open spec fn view(&self) -> SqlValueView {
        match self {
            SqlValue::Null => SqlValueView::Null,
            SqlValue::Integer(i) => SqlValueView::Integer(*i as int),
            SqlValue::Text(text) => SqlValueView::Text(text@),
            SqlValue::Blob(bytes) => SqlValueView::Blob(bytes@),
            SqlValue::Other => SqlValueView::Other,
        }
    }
}

/// The view of each value, in order.
pub open spec fn values_view(values: Seq<SqlValue>) -> Seq<SqlValueView> {
    Seq::new(values.len(), |i: int| values[i]@)
}

/// A storage backend: it runs statements whose parameters `?1`, `?2`, ... are
/// bound to the values given, in their order. What it answers depends on what
/// it stores, so no method promises anything of its result.
pub trait DatabaseConnection {
    /// Runs a statement that returns rows, and hands back all of them.
    fn xquery(&self, sql: &str, params: &Vec<SqlValue>) -> Result<Vec<Row>, SqlError>;

    /// Runs a statement that returns no rows, and hands back the number of
    /// rows that it changed.
    fn xexecute(&self, sql: &str, params: &Vec<SqlValue>) -> Result<usize, SqlError>;

    /// Runs one or more statements without parameters.
    fn xexecute_batch(&self, sql: &str) -> Result<(), SqlError>;

    /// The row identifier that the last successful insert was given.
    fn xlast_insert_rowid(&self) -> i64;

    /// The number of rows that the last statement changed.
    fn xchanges(&self) -> i64;

    /// The telemetry client of the connection, if it has one.
    fn kodama_instance(&self) -> Option<&Client>;

    /// Hands a record to the telemetry sink. The sink takes it without
    /// blocking and keeps a failure of its own to itself.
    fn xreport(&self, record: Record);
}

/// A backend that can be opened by the path of its file.
pub trait DatabaseOpen: DatabaseConnection + Sized {
    fn xopen(path: &str) -> Result<Self, SqlError>;
}

/// `answer` is what `connection` gave back when it was asked to run the query
/// `sql` with `params`.
pub open spec fn query_answer<C: DatabaseConnection>(
    connection: &C,
    sql: Seq<char>,
    params: Seq<SqlValueView>,
    answer: Result<Vec<Row>, SqlError>,
) -> bool {
    exists|text: &str, bound: &Vec<SqlValue>|
        text@ == sql && values_view(bound@) == params && #[trigger] call_ensures(
            C::xquery,
            (connection, text, bound),
            answer,
        )
}

/// `answer` is what `connection` gave back when it was asked to execute the
/// statement `sql` with `params`.
pub open spec fn execute_answer<C: DatabaseConnection>(
    connection: &C,
    sql: Seq<char>,
    params: Seq<SqlValueView>,
    answer: Result<usize, SqlError>,
) -> bool {
    exists|text: &str, bound: &Vec<SqlValue>|
        text@ == sql && values_view(bound@) == params && #[trigger] call_ensures(
            C::xexecute,
            (connection, text, bound),
            answer,
        )
}

/// `answer` is what `connection` gave back when it was asked to run the
/// statements `sql`.
pub open spec fn batch_answer<C: DatabaseConnection>(
    connection: &C,
    sql: Seq<char>,
    answer: Result<(), SqlError>,
) -> bool {
    exists|text: &str| text@ == sql && #[trigger] call_ensures(
        C::xexecute_batch,
        (connection, text),
        answer,
    )
}

/// `id` is what `connection` gave as the identifier of the last inserted row.
pub open spec fn rowid_answer<C: DatabaseConnection>(connection: &C, id: i64) -> bool {
    call_ensures(C::xlast_insert_rowid, (connection,), id)
}

/// `answer` is what opening a backend of the kind `C` at `path` gave.
pub open spec fn open_answer<C: DatabaseOpen>(path: Seq<char>, answer: Result<C, SqlError>) -> bool {
    exists|text: &str| text@ == path && #[trigger] call_ensures(C::xopen, (text,), answer)
}

/// Opens a backend of the kind `C` at `path`.
pub fn ask_open<C: DatabaseOpen>(path: &str) -> (answer: Result<C, SqlError>)
    ensures
        open_answer(path@, answer),
{
    C::xopen(path)
}

/// Whether `result` is what opening a backend at `path` and switching the
/// checking of foreign keys on gives: the open backend where both the
/// opening and the statement succeeded, else the first failure.
pub open spec fn opened_with_foreign_keys<C: DatabaseOpen>(
    path: Seq<char>,
    result: Result<C, SqlError>,
) -> bool {
    exists|answer: Result<C, SqlError>| #[trigger]
        open_answer(path, answer) && match answer {
            Err(error) => result == Err::<C, SqlError>(error),
            Ok(db) => exists|switched: Result<(), SqlError>| #[trigger]
                batch_answer(&db, "PRAGMA foreign_keys = ON;"@, switched) && match switched {
                    Err(error) => result == Err::<C, SqlError>(error),
                    Ok(_) => result == Ok::<C, SqlError>(db),
                },
        }
}

/// Opens a backend at `path` and switches the checking of foreign keys on.
pub fn open_with_foreign_keys<C: DatabaseOpen>(path: &str) -> (result: Result<C, SqlError>)
    ensures
        opened_with_foreign_keys(path@, result),
{
    let answer = ask_open::<C>(path);
    match answer {
        Err(error) => Err(error),
        Ok(db) => {
            let switched = ask_batch(&db, "PRAGMA foreign_keys = ON;");
            assert(batch_answer(&db, "PRAGMA foreign_keys = ON;"@, switched));
            match switched {
                Err(error) => Err(error),
                Ok(_) => Ok(db),
            }
        },
    }
}

/// Asks `connection` to run the query `sql` with `params`.
pub fn ask_query<C: DatabaseConnection>(connection: &C, sql: &str, params: &Vec<SqlValue>) -> (answer:
    Result<Vec<Row>, SqlError>)
    ensures
        query_answer(connection, sql@, values_view(params@), answer),
{
    connection.xquery(sql, params)
}

/// Asks `connection` to execute the statement `sql` with `params`.
pub fn ask_execute<C: DatabaseConnection>(connection: &C, sql: &str, params: &Vec<SqlValue>) -> (answer:
    Result<usize, SqlError>)
    ensures
        execute_answer(connection, sql@, values_view(params@), answer),
{
    connection.xexecute(sql, params)
}

/// Asks `connection` to run the statements `sql`.
pub fn ask_batch<C: DatabaseConnection>(connection: &C, sql: &str) -> (answer: Result<(), SqlError>)
    ensures
        batch_answer(connection, sql@, answer),
{
    connection.xexecute_batch(sql)
}

/// Asks `connection` for the identifier of the last inserted row.
pub fn ask_rowid<C: DatabaseConnection>(connection: &C) -> (id: i64)
    ensures
        rowid_answer(connection, id),
{
    connection.xlast_insert_rowid()
}

} // verus!
