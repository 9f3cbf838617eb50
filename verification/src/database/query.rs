//! The operations that every statement offers against every backend, each
//! timed and reported to the telemetry sink of the connection.

use super::connection::{
    ask_execute,
    ask_query,
    ask_rowid,
    execute_answer,
    query_answer,
    rowid_answer,
    values_view,
    DatabaseConnection,
};
use super::from_row::{decode_rows, decoded_rows, FromRow};
use super::value::{Row, SqlValue};
use crate::client::{Client, Record};
use crate::error::SqlError;
use crate::query::{IntoQuery, Query};
use crate::timestamp::{low_micros, whole_micros};
use std::time::{Duration, Instant};
use vstd::prelude::*;

verus! {

/// `Instant` of std, a reading of the monotonic clock. It is carried from
/// the start of a run to its end; nothing is known of what it holds.
#[verifier::external_type_specification]
#[verifier::external_body]
pub struct ExInstant(std::time::Instant);

/// `Instant::now` of std: a reading of the monotonic clock. Nothing is
/// claimed of the value.
#[verifier::external_body]
fn stopwatch_start() -> Instant {
    Instant::now()
}

/// `Instant::elapsed` of std: the time passed since the reading was taken.
/// Nothing is claimed of the value.
#[verifier::external_body]
fn stopwatch_read(started: &Instant) -> Duration {
    started.elapsed()
}

/// What a query for at most one row makes of the answer of the backend: the
/// first row as `T` reads it, or `None` where no row came or the reading
/// itself says that there is no row. Further rows are not looked at.
pub open spec fn first_decoded<T: FromRow>(answer: Result<Vec<Row>, SqlError>) -> Result<
    Option<T>,
    SqlError,
> {
    match answer {
        Err(error) => Err(error),
        Ok(rows) => if rows.len() == 0 {
            Ok(None)
        } else {
            match T::decoded(rows[0]) {
                Ok(item) => Ok(Some(item)),
                Err(SqlError::QueryReturnedNoRows) => Ok(None),
                Err(error) => Err(error),
            }
        },
    }
}

/// What a query for exactly one row makes of what was found: a missing row
/// is the error `QueryReturnedNoRows`.
pub open spec fn required<T>(found: Result<Option<T>, SqlError>) -> Result<T, SqlError> {
    match found {
        Err(error) => Err(error),
        Ok(Some(item)) => Ok(item),
        Ok(None) => Err(SqlError::QueryReturnedNoRows),
    }
}

/// Whether `items` is what a query for any number of rows makes of the
/// answer of the backend: every row that `T` can read, in order, the others
/// left out; a failure of the query as a whole is passed on.
pub open spec fn all_decoded<T: FromRow>(
    answer: Result<Vec<Row>, SqlError>,
    items: Result<Vec<T>, SqlError>,
) -> bool {
    match answer {
        Err(error) => items == Err::<Vec<T>, SqlError>(error),
        Ok(rows) => items matches Ok(list) && list@ == decoded_rows::<T>(rows@),
    }
}

/// What a probe makes of the answer of the backend: whether a row came.
pub open spec fn any_row(answer: Result<Vec<Row>, SqlError>) -> Result<bool, SqlError> {
    match answer {
        Err(error) => Err(error),
        Ok(rows) => Ok(rows.len() > 0),
    }
}

/// What a statement without result rows makes of the answer of the backend.
pub open spec fn executed(answer: Result<usize, SqlError>) -> Result<(), SqlError> {
    match answer {
        Err(error) => Err(error),
        Ok(_) => Ok(()),
    }
}

/// Whether `result` is what an insert makes of the answer of the backend:
/// where exactly one row changed, the row identifier that the backend names
/// afterwards, else the error that says how many rows changed.
pub open spec fn inserted<C: DatabaseConnection>(
    connection: &C,
    answer: Result<usize, SqlError>,
    result: Result<i64, SqlError>,
) -> bool {
    match answer {
        Err(error) => result == Err::<i64, SqlError>(error),
        Ok(changes) => if changes == 1 {
            result is Ok && rowid_answer(connection, result->Ok_0)
        } else {
            result == Err::<i64, SqlError>(SqlError::StatementChangedRows(changes))
        },
    }
}

/// Reads the first row of `answer`, if there is one.
pub fn decode_first<T: FromRow>(answer: Result<Vec<Row>, SqlError>) -> (found: Result<
    Option<T>,
    SqlError,
>)
    ensures
        found == first_decoded::<T>(answer),
{
    match answer {
        Err(error) => Err(error),
        Ok(rows) => if rows.len() == 0 {
            Ok(None)
        } else {
            match T::from_row(&rows[0]) {
                Ok(item) => Ok(Some(item)),
                Err(SqlError::QueryReturnedNoRows) => Ok(None),
                Err(error) => Err(error),
            }
        },
    }
}

/// Turns a missing row into the error `QueryReturnedNoRows`.
pub fn require_row<T>(found: Result<Option<T>, SqlError>) -> (item: Result<T, SqlError>)
    ensures
        item == required(found),
{
    match found {
        Err(error) => Err(error),
        Ok(Some(item)) => Ok(item),
        Ok(None) => Err(SqlError::QueryReturnedNoRows),
    }
}

/// Reads every row of `answer` that can be read, and skips the others.
pub fn decode_all<T: FromRow>(answer: Result<Vec<Row>, SqlError>) -> (items: Result<
    Vec<T>,
    SqlError,
>)
    ensures
        all_decoded::<T>(answer, items),
{
    match answer {
        Err(error) => Err(error),
        Ok(rows) => Ok(decode_rows::<T>(&rows)),
    }
}

/// The microseconds in `duration`, kept to 64 bits: the low 64 bits of the
/// whole microseconds that the duration was read as.
fn micros_of(duration: &Duration) -> (kept: u64)
    ensures
        exists|micros: u128| #[trigger]
            call_ensures(whole_micros, (duration,), micros) && kept == low_micros(micros),
{
    let micros: u128 = whole_micros(duration);
    assert(call_ensures(whole_micros, (duration,), micros));
    (micros % 0x1_0000_0000_0000_0000) as u64
}

/// The report of one run of `query`: a record named `sql-query`, labelled
/// with the statement text as it stands, with the time that the run took
/// and whether it failed.
pub fn query_report(client: &Client, query: &Query, elapsed_us: u64, failed: bool) -> (record:
    Record)
    ensures
        client.describes(record, "sql-query"@, query@, elapsed_us, failed),
        crate::client::stamped_by_clock(record),
{
    let text = query.as_string();
    client.record_with_error("sql-query", text.as_str(), elapsed_us, failed)
}

/// Whether `elapsed_us` is the time that a run took by the stopwatch: the
/// stopwatch was started and read, and the time is the whole microseconds
/// of the reading, kept to 64 bits. Nothing is known of the number itself.
pub closed spec fn run_timed(elapsed_us: u64) -> bool {
    exists|started: Instant| #[trigger]
        call_ensures(stopwatch_start, (), started) && timed_since(started, elapsed_us)
}

/// Whether `elapsed_us` is what the stopwatch read since `started`.
spec fn timed_since(started: Instant, elapsed_us: u64) -> bool {
    exists|elapsed: Duration| #[trigger]
        call_ensures(stopwatch_read, (&started,), elapsed) && exists|micros: u128| #[trigger]
            call_ensures(whole_micros, (&elapsed,), micros) && elapsed_us == low_micros(micros)
}

/// `found` is what `connection` gave as its telemetry client.
pub open spec fn client_found<C: DatabaseConnection>(connection: &C, found: Option<&Client>) -> bool {
    call_ensures(C::kodama_instance, (connection,), found)
}

/// `record` was handed to the telemetry sink of `connection`.
pub open spec fn handed_to_sink<C: DatabaseConnection>(connection: &C, record: Record) -> bool {
    call_ensures(C::xreport, (connection, record), ())
}

/// Whether `record` is the report of `client` on a run of `statement`: a
/// record named `sql-query`, labelled with the statement text as it stands,
/// with the time that the run took by the stopwatch and whether it failed,
/// stamped by the clock.
pub open spec fn report_of(client: Client, record: Record, statement: Seq<char>, failed: bool) -> bool {
    exists|elapsed_us: u64| #[trigger]
        run_timed(elapsed_us) && client.describes(
            record,
            "sql-query"@,
            statement,
            elapsed_us,
            failed,
        ) && crate::client::stamped_by_clock(record)
}

/// Whether a run of `statement` on `connection` was reported: the
/// connection was asked for its telemetry client, and where it has one, the
/// report of that client on the run was handed to the sink of the
/// connection. (That nothing is handed over without a client is how the
/// operations are written; a contract cannot speak of a call that is not
/// made.)
pub open spec fn run_reported<C: DatabaseConnection>(
    connection: &C,
    statement: Seq<char>,
    failed: bool,
) -> bool {
    exists|found: Option<&Client>| #[trigger]
        client_found(connection, found) && match found {
            Some(client) => exists|record: Record| #[trigger]
                handed_to_sink(connection, record) && report_of(*client, record, statement, failed),
            None => true,
        }
}

/// Ends the timing of one run of `query`: where the connection has a
/// telemetry client, the report of the run is handed to the sink of the
/// connection. Nothing comes back from the sink, so nothing of it reaches
/// the result of the run.
fn report<C: DatabaseConnection>(query: &Query, connection: &C, started: &Instant, failed: bool)
    requires
        call_ensures(stopwatch_start, (), *started),
    ensures
        run_reported(connection, query@, failed),
{
    let elapsed = stopwatch_read(started);
    let elapsed_us: u64 = micros_of(&elapsed);
    assert(run_timed(elapsed_us)) by {
        let micros = choose|micros: u128| #[trigger]
            call_ensures(whole_micros, (&elapsed,), micros) && elapsed_us == low_micros(micros);
        assert(call_ensures(stopwatch_read, (started,), elapsed));
        assert(timed_since(*started, elapsed_us));
    }
    let found = connection.kodama_instance();
    assert(client_found(connection, found));
    match found {
        Some(client) => {
            let record = query_report(client, query, elapsed_us, failed);
            assert(report_of(*client, record, query@, failed));
            connection.xreport(record);
            assert(handed_to_sink(connection, record));
        },
        None => {},
    }
}

/// The operations of a generated statement. `params` are bound to `?1`,
/// `?2`, ... in their order. Every operation hands the statement text to the
/// backend as it stands, and says what it makes of the answer.
pub trait DatabaseQuery {
    /// The text of the statement.
    spec fn statement(&self) -> Seq<char>;

    /// Exactly one row is required: none is the error `QueryReturnedNoRows`.
    /// The report of the run says whether the query or the reading of its
    /// first row failed; a row that is missing is no failure of the run.
    fn select_one<T: FromRow, C: DatabaseConnection>(
        &self,
        connection: &C,
        params: &Vec<SqlValue>,
    ) -> (result: Result<T, SqlError>)
        ensures
            exists|answer: Result<Vec<Row>, SqlError>|
                #[trigger] query_answer(connection, self.statement(), values_view(params@), answer)
                    && result == required(first_decoded::<T>(answer)) && run_reported(
                    connection,
                    self.statement(),
                    first_decoded::<T>(answer) is Err,
                ),
    ;

    /// At most one row is read.
    fn select_maybe<T: FromRow, C: DatabaseConnection>(
        &self,
        connection: &C,
        params: &Vec<SqlValue>,
    ) -> (result: Result<Option<T>, SqlError>)
        ensures
            exists|answer: Result<Vec<Row>, SqlError>|
                #[trigger] query_answer(connection, self.statement(), values_view(params@), answer)
                    && result == first_decoded::<T>(answer),
            run_reported(connection, self.statement(), result is Err),
    ;

    /// Every row is read; one that cannot be read is skipped and does not
    /// fail the others.
    fn select_many<T: FromRow, C: DatabaseConnection>(
        &self,
        connection: &C,
        params: &Vec<SqlValue>,
    ) -> (result: Result<Vec<T>, SqlError>)
        ensures
            exists|answer: Result<Vec<Row>, SqlError>|
                #[trigger] query_answer(connection, self.statement(), values_view(params@), answer)
                    && all_decoded::<T>(answer, result),
            run_reported(connection, self.statement(), result is Err),
    ;

    /// No result rows are expected.
    fn execute<C: DatabaseConnection>(&self, connection: &C, params: &Vec<SqlValue>) -> (result:
        Result<(), SqlError>)
        ensures
            exists|answer: Result<usize, SqlError>|
                #[trigger] execute_answer(
                    connection,
                    self.statement(),
                    values_view(params@),
                    answer,
                ) && result == executed(answer),
            run_reported(connection, self.statement(), result is Err),
    ;

    fn delete<C: DatabaseConnection>(&self, connection: &C, params: &Vec<SqlValue>) -> (result:
        Result<(), SqlError>)
        ensures
            exists|answer: Result<usize, SqlError>|
                #[trigger] execute_answer(
                    connection,
                    self.statement(),
                    values_view(params@),
                    answer,
                ) && result == executed(answer),
            run_reported(connection, self.statement(), result is Err),
    ;

    fn update<C: DatabaseConnection>(&self, connection: &C, params: &Vec<SqlValue>) -> (result:
        Result<(), SqlError>)
        ensures
            exists|answer: Result<usize, SqlError>|
                #[trigger] execute_answer(
                    connection,
                    self.statement(),
                    values_view(params@),
                    answer,
                ) && result == executed(answer),
            run_reported(connection, self.statement(), result is Err),
    ;

    /// One row is inserted; the result is the identifier that the backend
    /// gave it.
    fn insert<C: DatabaseConnection>(&self, connection: &C, params: &Vec<SqlValue>) -> (result:
        Result<i64, SqlError>)
        ensures
            exists|answer: Result<usize, SqlError>|
                #[trigger] execute_answer(
                    connection,
                    self.statement(),
                    values_view(params@),
                    answer,
                ) && inserted(connection, answer, result),
            run_reported(connection, self.statement(), result is Err),
    ;

    /// Whether the statement returns a row.
    fn row_exists<C: DatabaseConnection>(&self, connection: &C, params: &Vec<SqlValue>) -> (result:
        Result<bool, SqlError>)
        ensures
            exists|answer: Result<Vec<Row>, SqlError>|
                #[trigger] query_answer(connection, self.statement(), values_view(params@), answer)
                    && result == any_row(answer),
            run_reported(connection, self.statement(), result is Err),
    ;
}

impl DatabaseQuery for Query {
    open spec fn statement(&self) -> Seq<char> {
        self@
    }

    fn select_one<T: FromRow, C: DatabaseConnection>(
        &self,
        connection: &C,
        params: &Vec<SqlValue>,
    ) -> (result: Result<T, SqlError>) {
        let found = self.select_maybe::<T, C>(connection, params);
        proof {
            let answer = choose|answer: Result<Vec<Row>, SqlError>|
                #[trigger] query_answer(connection, self.statement(), values_view(params@), answer)
                    && found == first_decoded::<T>(answer);
            assert(query_answer(connection, self.statement(), values_view(params@), answer));
        }
        require_row(found)
    }

    fn select_maybe<T: FromRow, C: DatabaseConnection>(
        &self,
        connection: &C,
        params: &Vec<SqlValue>,
    ) -> (result: Result<Option<T>, SqlError>) {
        let started = stopwatch_start();
        let text = self.as_string();
        let answer = ask_query(connection, text.as_str(), params);
        let result = decode_first::<T>(answer);
        report(self, connection, &started, result.is_err());
        assert(query_answer(connection, self.statement(), values_view(params@), answer));
        result
    }

    fn select_many<T: FromRow, C: DatabaseConnection>(
        &self,
        connection: &C,
        params: &Vec<SqlValue>,
    ) -> (result: Result<Vec<T>, SqlError>) {
        let started = stopwatch_start();
        let text = self.as_string();
        let answer = ask_query(connection, text.as_str(), params);
        let result = decode_all::<T>(answer);
        report(self, connection, &started, result.is_err());
        assert(query_answer(connection, self.statement(), values_view(params@), answer));
        result
    }

    fn execute<C: DatabaseConnection>(&self, connection: &C, params: &Vec<SqlValue>) -> (result:
        Result<(), SqlError>) {
        let started = stopwatch_start();
        let text = self.as_string();
        let answer = ask_execute(connection, text.as_str(), params);
        let result = match answer {
            Err(error) => Err(error),
            Ok(_) => Ok(()),
        };
        report(self, connection, &started, result.is_err());
        assert(execute_answer(connection, self.statement(), values_view(params@), answer));
        result
    }

    fn delete<C: DatabaseConnection>(&self, connection: &C, params: &Vec<SqlValue>) -> (result:
        Result<(), SqlError>) {
        self.execute(connection, params)
    }

    fn update<C: DatabaseConnection>(&self, connection: &C, params: &Vec<SqlValue>) -> (result:
        Result<(), SqlError>) {
        self.execute(connection, params)
    }

    fn insert<C: DatabaseConnection>(&self, connection: &C, params: &Vec<SqlValue>) -> (result:
        Result<i64, SqlError>) {
        let started = stopwatch_start();
        let text = self.as_string();
        let answer = ask_execute(connection, text.as_str(), params);
        let result = match answer {
            Err(error) => Err(error),
            Ok(changes) => if changes == 1 {
                Ok(ask_rowid(connection))
            } else {
                Err(SqlError::StatementChangedRows(changes))
            },
        };
        report(self, connection, &started, result.is_err());
        assert(execute_answer(connection, self.statement(), values_view(params@), answer));
        result
    }

    fn row_exists<C: DatabaseConnection>(&self, connection: &C, params: &Vec<SqlValue>) -> (result:
        Result<bool, SqlError>) {
        let started = stopwatch_start();
        let text = self.as_string();
        let answer = ask_query(connection, text.as_str(), params);
        let result = match answer {
            Err(error) => Err(error),
            Ok(rows) => Ok(rows.len() > 0),
        };
        report(self, connection, &started, result.is_err());
        assert(query_answer(connection, self.statement(), values_view(params@), answer));
        result
    }
}

/// The operations of `DatabaseQuery`, offered by every builder: the builder
/// is turned into its statement, and the statement is run.
pub trait DatabaseQueryShortcut: Sized {
    /// The text of the statement that the builder generates.
    spec fn shortcut_statement(&self) -> Seq<char>;

    /// Exactly one row is required: none is the error `QueryReturnedNoRows`.
    fn select_one<T: FromRow, C: DatabaseConnection>(
        self,
        connection: &C,
        params: &Vec<SqlValue>,
    ) -> (result: Result<T, SqlError>)
        ensures
            exists|answer: Result<Vec<Row>, SqlError>|
                #[trigger] query_answer(
                    connection,
                    self.shortcut_statement(),
                    values_view(params@),
                    answer,
                ) && result == required(first_decoded::<T>(answer)) && run_reported(
                    connection,
                    self.shortcut_statement(),
                    first_decoded::<T>(answer) is Err,
                ),
    ;

    /// At most one row is read.
    fn select_maybe<T: FromRow, C: DatabaseConnection>(
        self,
        connection: &C,
        params: &Vec<SqlValue>,
    ) -> (result: Result<Option<T>, SqlError>)
        ensures
            exists|answer: Result<Vec<Row>, SqlError>|
                #[trigger] query_answer(
                    connection,
                    self.shortcut_statement(),
                    values_view(params@),
                    answer,
                ) && result == first_decoded::<T>(answer),
            run_reported(connection, self.shortcut_statement(), result is Err),
    ;

    /// Every row is read; one that cannot be read is skipped.
    fn select_many<T: FromRow, C: DatabaseConnection>(
        self,
        connection: &C,
        params: &Vec<SqlValue>,
    ) -> (result: Result<Vec<T>, SqlError>)
        ensures
            exists|answer: Result<Vec<Row>, SqlError>|
                #[trigger] query_answer(
                    connection,
                    self.shortcut_statement(),
                    values_view(params@),
                    answer,
                ) && all_decoded::<T>(answer, result),
            run_reported(connection, self.shortcut_statement(), result is Err),
    ;

    /// No result rows are expected.
    fn delete<C: DatabaseConnection>(
        self,
        connection: &C,
        params: &Vec<SqlValue>,
    ) -> (result: Result<(), SqlError>)
        ensures
            exists|answer: Result<usize, SqlError>|
                #[trigger] execute_answer(
                    connection,
                    self.shortcut_statement(),
                    values_view(params@),
                    answer,
                ) && result == executed(answer),
            run_reported(connection, self.shortcut_statement(), result is Err),
    ;

    /// No result rows are expected.
    fn update<C: DatabaseConnection>(
        self,
        connection: &C,
        params: &Vec<SqlValue>,
    ) -> (result: Result<(), SqlError>)
        ensures
            exists|answer: Result<usize, SqlError>|
                #[trigger] execute_answer(
                    connection,
                    self.shortcut_statement(),
                    values_view(params@),
                    answer,
                ) && result == executed(answer),
            run_reported(connection, self.shortcut_statement(), result is Err),
    ;

    /// One row is inserted; the result is the identifier that the backend gave it.
    fn insert<C: DatabaseConnection>(
        self,
        connection: &C,
        params: &Vec<SqlValue>,
    ) -> (result: Result<i64, SqlError>)
        ensures
            exists|answer: Result<usize, SqlError>|
                #[trigger] execute_answer(
                    connection,
                    self.shortcut_statement(),
                    values_view(params@),
                    answer,
                ) && inserted(connection, answer, result),
            run_reported(connection, self.shortcut_statement(), result is Err),
    ;

    /// Whether the statement returns a row.
    fn row_exists<C: DatabaseConnection>(
        self,
        connection: &C,
        params: &Vec<SqlValue>,
    ) -> (result: Result<bool, SqlError>)
        ensures
            exists|answer: Result<Vec<Row>, SqlError>|
                #[trigger] query_answer(
                    connection,
                    self.shortcut_statement(),
                    values_view(params@),
                    answer,
                ) && result == any_row(answer),
            run_reported(connection, self.shortcut_statement(), result is Err),
    ;
}

impl<Q: IntoQuery> DatabaseQueryShortcut for Q {
    open spec fn shortcut_statement(&self) -> Seq<char> {
        self.query_sql()
    }

    fn select_one<T: FromRow, C: DatabaseConnection>(
        self,
        connection: &C,
        params: &Vec<SqlValue>,
    ) -> (result: Result<T, SqlError>) {
        let query = self.into_query();
        assert(query.statement() == self.shortcut_statement());
        DatabaseQuery::select_one::<T, C>(&query, connection, params)
    }

    fn select_maybe<T: FromRow, C: DatabaseConnection>(
        self,
        connection: &C,
        params: &Vec<SqlValue>,
    ) -> (result: Result<Option<T>, SqlError>) {
        let query = self.into_query();
        assert(query.statement() == self.shortcut_statement());
        DatabaseQuery::select_maybe::<T, C>(&query, connection, params)
    }

    fn select_many<T: FromRow, C: DatabaseConnection>(
        self,
        connection: &C,
        params: &Vec<SqlValue>,
    ) -> (result: Result<Vec<T>, SqlError>) {
        let query = self.into_query();
        assert(query.statement() == self.shortcut_statement());
        DatabaseQuery::select_many::<T, C>(&query, connection, params)
    }

    fn delete<C: DatabaseConnection>(
        self,
        connection: &C,
        params: &Vec<SqlValue>,
    ) -> (result: Result<(), SqlError>) {
        let query = self.into_query();
        assert(query.statement() == self.shortcut_statement());
        DatabaseQuery::delete(&query, connection, params)
    }

    fn update<C: DatabaseConnection>(
        self,
        connection: &C,
        params: &Vec<SqlValue>,
    ) -> (result: Result<(), SqlError>) {
        let query = self.into_query();
        assert(query.statement() == self.shortcut_statement());
        DatabaseQuery::update(&query, connection, params)
    }

    fn insert<C: DatabaseConnection>(
        self,
        connection: &C,
        params: &Vec<SqlValue>,
    ) -> (result: Result<i64, SqlError>) {
        let query = self.into_query();
        assert(query.statement() == self.shortcut_statement());
        DatabaseQuery::insert(&query, connection, params)
    }

    fn row_exists<C: DatabaseConnection>(
        self,
        connection: &C,
        params: &Vec<SqlValue>,
    ) -> (result: Result<bool, SqlError>) {
        let query = self.into_query();
        assert(query.statement() == self.shortcut_statement());
        DatabaseQuery::row_exists(&query, connection, params)
    }
}

} // verus!
