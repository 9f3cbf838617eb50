//! The time-series store of one service: one table for each record.

use super::statements::{
    aggregate,
    aggregate_sql,
    define_record,
    define_record_sql,
    observation_insert,
    observation_insert_sql,
    percentile_lookup,
    percentile_lookup_sql,
};
use crate::database::connection::{
    execute_answer,
    open_with_foreign_keys,
    opened_with_foreign_keys,
    query_answer,
    values_view,
    DatabaseConnection,
    DatabaseOpen,
    SqlValueView,
};
use crate::database::from_row::{decoded_rows, micros_stored};
use crate::database::query::{all_decoded, executed, first_decoded, required, DatabaseQuery};
use crate::database::value::{Row, SqlValue};
use crate::error::{ApiError, Error, SqlError};
use crate::query::Query;
use crate::record::{percentile_rank, rank_of, DataEntry};
use crate::text::{int_decimal, push_int};
use crate::timestamp::{clock_gave, moment_read, Timestamp};
use vstd::prelude::*;

verus! {

/// The path of a file of the store: the directory, a `/` unless the
/// directory is empty or ends in one, and the name of the file.
pub open spec fn store_file(directory: Seq<char>, file: Seq<char>) -> Seq<char> {
    if directory.len() == 0 || directory.last() == '/' {
        directory + file
    } else {
        directory + seq!['/'] + file
    }
}

/// The name of the file of a service: `service-`, the id of the service,
/// and `.db`.
pub open spec fn service_file(service_id: int) -> Seq<char> {
    "service-"@ + int_decimal(service_id) + ".db"@
}

/// The path of the file `file` in `directory`.
pub fn store_path(directory: &str, file: &str) -> (path: String)
    ensures
        path@ == store_file(directory@, file@),
{
    let length: usize = directory.unicode_len();
    let mut path = directory.to_owned();
    if length > 0 && directory.get_char(length - 1) != '/' {
        proof {
            reveal_strlit("/");
        }
        path.append("/");
    }
    path.append(file);
    path
}

/// The name of the file of the service `service_id`.
pub fn service_file_name(service_id: i64) -> (name: String)
    ensures
        name@ == service_file(service_id as int),
{
    let mut name = "service-".to_owned();
    push_int(&mut name, service_id);
    name.append(".db");
    name
}

/// The moment that an observation is stored under: the one given, else the
/// reading of the clock; without either there is none, and that is an error.
pub open spec fn stamp_chosen(given: Option<Timestamp>, clock: Option<Timestamp>) -> Result<
    Timestamp,
    ApiError,
> {
    match given {
        Some(stamp) => Ok(stamp),
        None => match clock {
            Some(stamp) => Ok(stamp),
            None => Err(ApiError::InvalidTimestamp),
        },
    }
}

/// The moment that an observation is stored under.
pub fn choose_timestamp(given: Option<Timestamp>, clock: Option<Timestamp>) -> (chosen: Result<
    Timestamp,
    ApiError,
>)
    ensures
        chosen == stamp_chosen(given, clock),
{
    match given {
        Some(stamp) => Ok(stamp),
        None => match clock {
            Some(stamp) => Ok(stamp),
            None => Err(ApiError::InvalidTimestamp),
        },
    }
}

/// The parameters of the insert of an observation: the moment as it is
/// stored, the group, and the execution time.
pub open spec fn observation_params(stamp: Timestamp, group_by: Seq<char>, execution_time: u64) -> Seq<
    SqlValueView,
> {
    seq![
        SqlValueView::Integer(micros_stored(stamp.microseconds) as int),
        SqlValueView::Text(group_by),
        SqlValueView::Integer(execution_time as int),
    ]
}

/// The parameters of the lookup of a percentile: the group and the rank.
pub open spec fn percentile_params(group: Seq<char>, rank: i64) -> Seq<SqlValueView> {
    seq![SqlValueView::Text(group), SqlValueView::Integer(rank as int)]
}

/// What a store operation makes of the answer of the backend to a statement
/// without result rows.
pub open spec fn stored(answer: Result<usize, SqlError>) -> Result<(), Error> {
    match answer {
        Ok(_) => Ok(()),
        Err(error) => Err(Error::Rusqlite(error)),
    }
}

/// Whether `done` is what adding one observation under the moment `stamp`
/// gives: an execution time beyond the greatest integer of the backend is
/// refused before anything runs; else the insert runs with the moment, the
/// group and the execution time as its parameters, and its outcome is the
/// result.
pub open spec fn observation_added<C: DatabaseConnection>(
    conn: &C,
    record_id: i64,
    stamp: Timestamp,
    group_by: Seq<char>,
    execution_time: u64,
    done: Result<(), Error>,
) -> bool {
    if execution_time > 0x7fff_ffff_ffff_ffff {
        done == Err::<(), Error>(Error::Rusqlite(SqlError::ParameterOutOfRange(3)))
    } else {
        exists|answer: Result<usize, SqlError>| #[trigger]
            execute_answer(
                conn,
                observation_insert_sql(record_id as int),
                observation_params(stamp, group_by, execution_time),
                answer,
            ) && done == stored(answer)
    }
}

/// Whether `value` is the execution time that the backend gave for the
/// observation at the offset `rank` among those of `group`, in ascending
/// order.
pub open spec fn percentile_found<C: DatabaseConnection>(
    conn: &C,
    record_id: i64,
    group: Seq<char>,
    rank: i64,
    value: Result<u64, SqlError>,
) -> bool {
    exists|answer: Result<Vec<Row>, SqlError>| #[trigger]
        query_answer(
            conn,
            percentile_lookup_sql(record_id as int),
            percentile_params(group, rank),
            answer,
        ) && value == required(first_decoded::<u64>(answer))
}

/// Whether `entry` is `base` with its percentiles filled in: the 50th and
/// the 95th percentile are the observations at the ranks
/// `count * 50 / 100` and `count * 95 / 100` of the group.
pub open spec fn entry_completed<C: DatabaseConnection>(
    conn: &C,
    record_id: i64,
    base: DataEntry,
    entry: DataEntry,
) -> bool {
    &&& entry == (DataEntry { p50: entry.p50, p95: entry.p95, ..base })
    &&& percentile_found(
        conn,
        record_id,
        base.group_by@,
        rank_of(base.count as int, 50) as i64,
        Ok(entry.p50),
    )
    &&& percentile_found(
        conn,
        record_id,
        base.group_by@,
        rank_of(base.count as int, 95) as i64,
        Ok(entry.p95),
    )
}

/// Whether `list` is the groups of `answer`, in order, each with its
/// percentiles filled in.
pub open spec fn entries_completed<C: DatabaseConnection>(
    conn: &C,
    record_id: i64,
    bases: Seq<DataEntry>,
    list: Seq<DataEntry>,
) -> bool {
    &&& list.len() == bases.len()
    &&& forall|i: int| 0 <= i < list.len() ==> entry_completed(conn, record_id, bases[i], #[trigger] list[i])
}

/// Whether `done` is what making the table of a record gives: the
/// statement runs, and its outcome is the result.
pub open spec fn table_defined<C: DatabaseConnection>(
    conn: &C,
    record_id: i64,
    done: Result<(), Error>,
) -> bool {
    exists|answer: Result<usize, SqlError>| #[trigger]
        execute_answer(conn, define_record_sql(record_id as int), Seq::empty(), answer) && done
            == stored(answer)
}

/// Whether `done` is what storing one observation gives. An observation
/// with a timestamp is stored under it. For one without, the clock is read:
/// the observation is stored under the moment of the reading, and where the
/// clock gives no reading the error is `InvalidTimestamp` and nothing runs.
pub open spec fn observation_stored<C: DatabaseConnection>(
    conn: &C,
    record_id: i64,
    timestamp: Option<Timestamp>,
    group_by: Seq<char>,
    execution_time: u64,
    done: Result<(), Error>,
) -> bool {
    match timestamp {
        Some(stamp) => observation_added(conn, record_id, stamp, group_by, execution_time, done),
        None => exists|reading: Option<u128>| #[trigger]
            clock_gave(reading) && match stamp_chosen(None, moment_read(reading)) {
                Ok(stamp) => observation_added(
                    conn,
                    record_id,
                    stamp,
                    group_by,
                    execution_time,
                    done,
                ),
                Err(error) => done == Err::<(), Error>(Error::ApiError(error)),
            },
    }
}

/// Whether both percentiles of the group `base` were found.
pub open spec fn group_completed<C: DatabaseConnection>(
    conn: &C,
    record_id: i64,
    base: DataEntry,
) -> bool {
    exists|entry: DataEntry| #[trigger] entry_completed(conn, record_id, base, entry)
}

/// Whether the lookup of a percentile failed with `error` at the group at
/// the position `at`: the percentiles of every group before it were found,
/// and of this group either the lookup of the 50th percentile failed, or
/// that one was found and the lookup of the 95th failed.
pub open spec fn percentiles_failed<C: DatabaseConnection>(
    conn: &C,
    record_id: i64,
    bases: Seq<DataEntry>,
    at: int,
    error: SqlError,
) -> bool {
    &&& 0 <= at < bases.len()
    &&& forall|i: int| 0 <= i < at ==> #[trigger] group_completed(conn, record_id, bases[i])
    &&& {
        let group = bases[at].group_by@;
        let rank50 = rank_of(bases[at].count as int, 50) as i64;
        let rank95 = rank_of(bases[at].count as int, 95) as i64;
        ||| percentile_found(conn, record_id, group, rank50, Err(error))
        ||| exists|p50: u64| #[trigger]
            percentile_found(conn, record_id, group, rank50, Ok(p50)) && percentile_found(
                conn,
                record_id,
                group,
                rank95,
                Err(error),
            )
    }
}

/// Whether `entries` is what filling in the percentiles of the groups
/// `bases` gives: the groups in order, each with both percentiles, or the
/// failure of the first lookup that failed.
pub open spec fn percentiles_filled<C: DatabaseConnection>(
    conn: &C,
    record_id: i64,
    bases: Seq<DataEntry>,
    entries: Result<Vec<DataEntry>, Error>,
) -> bool {
    match entries {
        Ok(list) => entries_completed(conn, record_id, bases, list@),
        Err(Error::Rusqlite(error)) => exists|at: int| #[trigger]
            percentiles_failed(conn, record_id, bases, at, error),
        Err(_) => false,
    }
}

/// Whether `entries` is what reading the statistics of a record gives: the
/// aggregate query runs; its failure is the result; else the groups that
/// can be read get their percentiles, in order.
pub open spec fn entries_read<C: DatabaseConnection>(
    conn: &C,
    record_id: i64,
    entries: Result<Vec<DataEntry>, Error>,
) -> bool {
    exists|answer: Result<Vec<Row>, SqlError>| #[trigger]
        query_answer(conn, aggregate_sql(record_id as int), Seq::empty(), answer) && match answer {
            Err(error) => entries == Err::<Vec<DataEntry>, Error>(Error::Rusqlite(error)),
            Ok(rows) => percentiles_filled(
                conn,
                record_id,
                decoded_rows::<DataEntry>(rows@),
                entries,
            ),
        }
}

/// Whether `service` is what opening the store of the service
/// `service_id` in `directory` gives: the file of the service is opened and
/// the checking of foreign keys is switched on; the first failure is the
/// result.
pub open spec fn store_opened<C: DatabaseOpen>(
    directory: Seq<char>,
    service_id: i64,
    service: Result<Service<C>, Error>,
) -> bool {
    exists|opened: Result<C, SqlError>| #[trigger]
        opened_with_foreign_keys(store_file(directory, service_file(service_id as int)), opened)
            && match opened {
            Err(error) => service == Err::<Service<C>, Error>(Error::Rusqlite(error)),
            Ok(db) => service is Ok && service->Ok_0.service_id() == service_id
                && *service->Ok_0.backend() == db,
        }
}

/// The store of one service.
pub struct Service<C: DatabaseConnection> {
    id: i64,
    db: C,
}

impl<C: DatabaseConnection> Service<C> {
    /// The id of the service.
    pub closed spec fn service_id(&self) -> i64 {
        self.id
    }

    /// The backend connection of the store.
    pub closed spec fn backend(&self) -> &C {
        &self.db
    }

    /// The store of the service `service_id` on an open connection.
    pub fn new(service_id: i64, db: C) -> (service: Self)
        ensures
            service.service_id() == service_id,
            *service.backend() == db,
    {
        Service { id: service_id, db }
    }

    /// The id of the service.
    pub fn id(&self) -> (id: i64)
        ensures
            id == self.service_id(),
    {
        self.id
    }

    /// Makes the table that holds the observations of a record, unless it
    /// is there.
    pub fn define_record(&self, record_id: i64) -> (done: Result<(), Error>)
        ensures
            table_defined(self.backend(), record_id, done),
    {
        let statement = Query::from_text(define_record(record_id));
        let params: Vec<SqlValue> = Vec::new();
        assert(values_view(params@) =~= Seq::empty());
        let result = statement.execute(&self.db, &params);
        proof {
            let answer = choose|answer: Result<usize, SqlError>| #[trigger]
                execute_answer(self.backend(), statement.statement(), values_view(params@), answer)
                    && result == executed(answer);
            assert(execute_answer(
                self.backend(),
                define_record_sql(record_id as int),
                Seq::empty(),
                answer,
            ));
        }
        match result {
            Ok(_) => Ok(()),
            Err(error) => Err(Error::Rusqlite(error)),
        }
    }

    /// Adds one observation to a record. Without a timestamp the
    /// observation is stored under the current time; where the clock gives
    /// no reading either, the error is `InvalidTimestamp` and nothing is
    /// stored.
    pub fn add_record(
        &self,
        record_id: i64,
        timestamp: Option<Timestamp>,
        group_by: &str,
        execution_time: u64,
    ) -> (done: Result<(), Error>)
        ensures
            observation_stored(
                self.backend(),
                record_id,
                timestamp,
                group_by@,
                execution_time,
                done,
            ),
    {
        let statement = observation_insert(record_id);
        let ghost mut reading: Option<u128> = None;
        let clock = match timestamp {
            Some(_) => None,
            None => {
                let now = Timestamp::now();
                proof {
                    reading = choose|reading: Option<u128>| #[trigger]
                        clock_gave(reading) && now == moment_read(reading);
                }
                now
            },
        };
        let stamp = match choose_timestamp(timestamp, clock) {
            Ok(stamp) => stamp,
            Err(error) => {
                assert(clock_gave(reading));
                return Err(Error::ApiError(error));
            },
        };
        let done = if execution_time > 0x7fff_ffff_ffff_ffff {
            Err(Error::Rusqlite(SqlError::ParameterOutOfRange(3)))
        } else {
            let mut params: Vec<SqlValue> = Vec::new();
            params.push(stamp.to_sql());
            params.push(SqlValue::Text(group_by.to_owned()));
            params.push(SqlValue::Integer(execution_time as i64));
            assert(values_view(params@) =~= observation_params(stamp, group_by@, execution_time));
            let result = statement.execute(&self.db, &params);
            proof {
                let answer = choose|answer: Result<usize, SqlError>| #[trigger]
                    execute_answer(
                        self.backend(),
                        statement.statement(),
                        values_view(params@),
                        answer,
                    ) && result == executed(answer);
                assert(execute_answer(
                    self.backend(),
                    observation_insert_sql(record_id as int),
                    observation_params(stamp, group_by@, execution_time),
                    answer,
                ));
            }
            match result {
                Ok(_) => Ok(()),
                Err(error) => Err(Error::Rusqlite(error)),
            }
        };
        assert(observation_added(self.backend(), record_id, stamp, group_by@, execution_time, done));
        proof {
            if timestamp is None {
                assert(clock_gave(reading));
            }
        }
        done
    }

    /// Looks up the observation at the offset `rank` among those of
    /// `group`, in ascending order of their execution time.
    pub fn percentile(&self, record_id: i64, group: &str, rank: i64) -> (value: Result<
        u64,
        SqlError,
    >)
        ensures
            percentile_found(self.backend(), record_id, group@, rank, value),
    {
        let statement = percentile_lookup(record_id);
        let mut params: Vec<SqlValue> = Vec::new();
        params.push(SqlValue::Text(group.to_owned()));
        params.push(SqlValue::Integer(rank));
        assert(values_view(params@) =~= percentile_params(group@, rank));
        let value = statement.select_one::<u64, C>(&self.db, &params);
        proof {
            let answer = choose|answer: Result<Vec<Row>, SqlError>| #[trigger]
                query_answer(self.backend(), statement.statement(), values_view(params@), answer)
                    && value == required(first_decoded::<u64>(answer));
            assert(query_answer(
                self.backend(),
                percentile_lookup_sql(record_id as int),
                percentile_params(group@, rank),
                answer,
            ));
        }
        value
    }

    /// The statistics of each group of a record. The count, the errors and
    /// the summed, average, least and greatest execution time come from one
    /// aggregate query, a group that cannot be read being left out; the 50th
    /// and the 95th percentile of each group come from one query each. The
    /// failure of any query is the result.
    pub fn record_entries(&self, record_id: i64) -> (entries: Result<Vec<DataEntry>, Error>)
        ensures
            entries_read(self.backend(), record_id, entries),
    {
        let statement = aggregate(record_id);
        let params: Vec<SqlValue> = Vec::new();
        assert(values_view(params@) =~= Seq::empty());
        let fetched = statement.select_many::<DataEntry, C>(&self.db, &params);
        let ghost answer = choose|answer: Result<Vec<Row>, SqlError>| #[trigger]
            query_answer(self.backend(), statement.statement(), values_view(params@), answer)
                && all_decoded::<DataEntry>(answer, fetched);
        assert(query_answer(
            self.backend(),
            aggregate_sql(record_id as int),
            Seq::empty(),
            answer,
        ));
        let bases = match fetched {
            Ok(bases) => bases,
            Err(error) => {
                return Err(Error::Rusqlite(error));
            },
        };
        let mut list: Vec<DataEntry> = Vec::new();
        let mut i: usize = 0;
        while i < bases.len()
            invariant
                i <= bases.len(),
                list.len() == i,
                query_answer(
                    self.backend(),
                    aggregate_sql(record_id as int),
                    Seq::empty(),
                    answer,
                ),
                answer is Ok,
                bases@ == decoded_rows::<DataEntry>(answer->Ok_0@),
                forall|k: int|
                    0 <= k < i ==> entry_completed(
                        self.backend(),
                        record_id,
                        bases@[k],
                        #[trigger] list@[k],
                    ),
            decreases bases.len() - i,
        {
            let base = &bases[i];
            let rank50: i64 = percentile_rank(base.count, 50);
            let rank95: i64 = percentile_rank(base.count, 95);
            proof {
                assert forall|k: int| 0 <= k < i implies #[trigger] group_completed(
                    self.backend(),
                    record_id,
                    bases@[k],
                ) by {
                    assert(entry_completed(self.backend(), record_id, bases@[k], list@[k]));
                }
            }
            let p50 = match self.percentile(record_id, base.group_by.as_str(), rank50) {
                Ok(value) => value,
                Err(error) => {
                    assert(percentiles_failed(
                        self.backend(),
                        record_id,
                        bases@,
                        i as int,
                        error,
                    ));
                    return Err(Error::Rusqlite(error));
                },
            };
            let p95 = match self.percentile(record_id, base.group_by.as_str(), rank95) {
                Ok(value) => value,
                Err(error) => {
                    assert(percentile_found(
                        self.backend(),
                        record_id,
                        bases@[i as int].group_by@,
                        rank50,
                        Ok::<u64, SqlError>(p50),
                    ));
                    assert(percentiles_failed(
                        self.backend(),
                        record_id,
                        bases@,
                        i as int,
                        error,
                    ));
                    return Err(Error::Rusqlite(error));
                },
            };
            let entry = base.with_percentiles(p50, p95);
            assert(entry_completed(self.backend(), record_id, bases@[i as int], entry));
            list.push(entry);
            i = i + 1;
        }
        assert(entries_completed(self.backend(), record_id, bases@, list@));
        Ok(list)
    }
}

impl<C: DatabaseOpen> Service<C> {
    /// Opens the store of the service `service_id` in the directory `path`
    /// and switches the checking of foreign keys on.
    pub fn open(path: &String, service_id: i64) -> (service: Result<Self, Error>)
        ensures
            store_opened(path@, service_id, service),
    {
        let file = service_file_name(service_id);
        let full = store_path(path.as_str(), file.as_str());
        let opened = open_with_foreign_keys::<C>(full.as_str());
        assert(opened_with_foreign_keys(
            store_file(path@, service_file(service_id as int)),
            opened,
        ));
        match opened {
            Ok(db) => Ok(Service { id: service_id, db }),
            Err(error) => Err(Error::Rusqlite(error)),
        }
    }
}

} // verus!
