//! The telemetry client: it makes the records that a service reports about itself.

use crate::timestamp::{clock_gave, moment_read, Timestamp};
use vstd::prelude::*;

verus! {

/// One timed observation as it goes over the wire.
#[derive(Debug)]
pub struct Record {
    pub project_name: String,
    pub service_name: String,
    pub record_name: String,
    /// The label under which observations are aggregated.
    pub group_by: String,
    pub timestamp: Option<Timestamp>,
    pub execution_time_us: u64,
    /// Greater than zero where the observed operation failed.
    pub error: i64,
}

impl Record {
    /// Whether the time-series store keeps this record: it keeps the
    /// observations of operations that did not fail.
    pub open spec fn is_kept(&self) -> bool {
        self.error <= 0
    }

    /// Whether the time-series store keeps this record.
    pub fn kept(&self) -> (keep: bool)
        ensures
            keep == self.is_kept(),
    {
        self.error <= 0
    }
}

/// The identity under which a service reports: its project and its own name.
#[derive(Debug)]
pub struct Client {
    project: String,
    service: String,
}

/// Whether the record is stamped with the moment that the clock read when
/// the record was made, or with none where the clock gave no reading.
pub open spec fn stamped_by_clock(made: Record) -> bool {
    exists|reading: Option<u128>| #[trigger]
        clock_gave(reading) && made.timestamp == moment_read(reading)
}

/// The error flag of a record: 1 for a failure, 0 for a success.
pub open spec fn error_flag(failed: bool) -> i64 {
    if failed {
        1
    } else {
        0
    }
}

impl Client {
    /// The name of the project that the client reports for.
    pub closed spec fn project_name(&self) -> Seq<char> {
        self.project@
    }

    /// The name of the service that the client reports for.
    pub closed spec fn service_name(&self) -> Seq<char> {
        self.service@
    }

    /// What every record of this client states: who reports, under which
    /// record name and label, how long the operation took and how it ended.
    pub open spec fn describes(
        &self,
        made: Record,
        record: Seq<char>,
        group_by: Seq<char>,
        execution_time_us: u64,
        failed: bool,
    ) -> bool {
        &&& made.project_name@ == self.project_name()
        &&& made.service_name@ == self.service_name()
        &&& made.record_name@ == record
        &&& made.group_by@ == group_by
        &&& made.execution_time_us == execution_time_us
        &&& made.error == error_flag(failed)
    }

    pub fn new(project: &str, service: &str) -> (client: Self)
        ensures
            client.project_name() == project@,
            client.service_name() == service@,
    {
        Client { project: project.to_owned(), service: service.to_owned() }
    }

    /// The record of an operation that succeeded, stamped with the current time.
    pub fn record(&self, record: &str, group_by: &str, execution_time_us: u64) -> (made: Record)
        ensures
            self.describes(made, record@, group_by@, execution_time_us, false),
            stamped_by_clock(made),
    {
        self.record_with_error(record, group_by, execution_time_us, false)
    }

    /// The record of an operation, stamped with the current time; `error`
    /// says whether the operation failed.
    pub fn record_with_error(
        &self,
        record: &str,
        group_by: &str,
        execution_time_us: u64,
        error: bool,
    ) -> (made: Record)
        ensures
            self.describes(made, record@, group_by@, execution_time_us, error),
            stamped_by_clock(made),
    {
        let timestamp = Timestamp::now();
        Record {
            project_name: self.project.clone(),
            service_name: self.service.clone(),
            record_name: record.to_owned(),
            group_by: group_by.to_owned(),
            timestamp,
            execution_time_us,
            error: if error {
                1
            } else {
                0
            },
        }
    }
}

impl Clone for Client {
    fn clone(&self) -> (copy: Self)
        ensures
            copy == *self,
    {
        Client { project: self.project.clone(), service: self.service.clone() }
    }
}

/// The records that wait to be sent to the telemetry sink, oldest first.
/// The queue is bounded: a record that is offered to a full queue is
/// dropped, so that a sink that is slow or away holds nobody up.
pub struct Outbox {
    queue: Vec<Record>,
    capacity: usize,
}

/// What an outbox holds: the records that wait, oldest first, and the
/// number of records that it holds at most.
pub struct OutboxView {
    pub waiting: Seq<Record>,
    pub limit: nat,
}

impl View for Outbox {
    type V = OutboxView;

    closed spec fn view(&self) -> OutboxView {
        OutboxView { waiting: self.queue@, limit: self.capacity as nat }
    }
}

impl OutboxView {
    /// What the outbox holds after a record was offered to it: a queue that
    /// has room takes the record as its newest, a full queue stays as it is.
    pub open spec fn offered(self, record: Record) -> OutboxView {
        if self.waiting.len() < self.limit {
            OutboxView { waiting: self.waiting.push(record), ..self }
        } else {
            self
        }
    }
}

impl Outbox {
    /// An empty queue for at most `capacity` records.
    pub fn new(capacity: usize) -> (outbox: Self)
        ensures
            outbox@ == (OutboxView { waiting: Seq::empty(), limit: capacity as nat }),
    {
        Outbox { queue: Vec::new(), capacity }
    }

    /// The number of records that wait.
    pub fn len(&self) -> (count: usize)
        ensures
            count == self@.waiting.len(),
    {
        self.queue.len()
    }

    /// Offers a record to the queue. A queue that has room takes it as its
    /// newest; a full queue stays as it is and the record is dropped. The
    /// result says whether the record was taken.
    pub fn offer(&mut self, record: Record) -> (taken: bool)
        ensures
            final(self)@ == old(self)@.offered(record),
            taken == (old(self)@.waiting.len() < old(self)@.limit),
            old(self)@.waiting.len() <= old(self)@.limit ==> final(self)@.waiting.len() <= final(self)@.limit,
    {
        if self.queue.len() < self.capacity {
            self.queue.push(record);
            true
        } else {
            false
        }
    }

    /// Takes every record out of the queue, oldest first.
    pub fn take_all(&mut self) -> (records: Vec<Record>)
        ensures
            records@ == old(self)@.waiting,
            final(self)@ == (OutboxView { waiting: Seq::empty(), ..old(self)@ }),
    {
        let mut records: Vec<Record> = Vec::new();
        std::mem::swap(&mut self.queue, &mut records);
        records
    }
}

} // verus!
