//! Traces of executed SQL statements as they go over the wire.

use vstd::prelude::*;

verus! {

/// The kind of an SQL statement.
#[derive(Clone, Copy, Debug, PartialEq, Eq, Structural)]
pub enum Command {
    Select,
    Insert,
    Update,
    Delete,
    Create,
    Alter,
    Drop,
    Truncate,
    Comment,
    /// The `set` statement.
    SetVariable,
}

impl Command {
    /// The number under which the kind is stored: 1 for `Select` up to 10 for `SetVariable`.
    pub open spec fn code(self) -> int {
        match self {
            Command::Select => 1,
            Command::Insert => 2,
            Command::Update => 3,
            Command::Delete => 4,
            Command::Create => 5,
            Command::Alter => 6,
            Command::Drop => 7,
            Command::Truncate => 8,
            Command::Comment => 9,
            Command::SetVariable => 10,
        }
    }

    pub fn to_i64(&self) -> (code: i64)
        ensures
            code == self.code(),
    {
        match self {
            Command::Select => 1,
            Command::Insert => 2,
            Command::Update => 3,
            Command::Delete => 4,
            Command::Create => 5,
            Command::Alter => 6,
            Command::Drop => 7,
            Command::Truncate => 8,
            Command::Comment => 9,
            Command::SetVariable => 10,
        }
    }

    /// The kind stored under `i`, if `i` is the number of one.
    pub fn from_i64(i: i64) -> (kind: Option<Self>)
        ensures
            1 <= i <= 10 <==> kind is Some,
            kind matches Some(k) ==> k.code() == i,
    {
        match i {
            1 => Some(Command::Select),
            2 => Some(Command::Insert),
            3 => Some(Command::Update),
            4 => Some(Command::Delete),
            5 => Some(Command::Create),
            6 => Some(Command::Alter),
            7 => Some(Command::Drop),
            8 => Some(Command::Truncate),
            9 => Some(Command::Comment),
            10 => Some(Command::SetVariable),
            _ => None,
        }
    }
}

/// Two kinds with one number are one kind, so a number read back gives the
/// kind that was stored.
pub proof fn lemma_code_is_injective(a: Command, b: Command)
    requires
        a.code() == b.code(),
    ensures
        a == b,
{
}

/// One executed statement, as a client reports it.
#[derive(Debug)]
pub struct PushRequest {
    pub project_name: String,
    pub service_name: String,
    pub command_type: Command,
    pub query: String,
    pub expanded_query: Option<String>,
    pub execution_time: u64,
    pub row_changes: i64,
    pub last_row_id: i64,
    pub timestamp: Option<String>,
}

#[derive(Clone, Copy, Debug, PartialEq, Eq, Structural)]
pub struct PushResponse {
    pub trace_id: i64,
}

#[derive(Debug)]
pub struct StatusRequest {
    pub project_name: String,
    pub service_name: String,
}

#[derive(Debug)]
pub struct StatusResponse {
    pub queries: Vec<StatusQuery>,
}

/// The statistics of one statement text; times are in microseconds.
#[derive(Debug)]
pub struct StatusQuery {
    /// Query string
    pub query: String,
    /// Total execution count
    pub count: i64,
    /// Total execution time
    pub execution_time: u64,
    /// Minimum execution time
    pub min: u64,
    /// Maximum execution time
    pub max: u64,
    /// Average execution time
    pub avg: u64,
    /// Execution time, 50th percentile
    pub p50: u64,
    /// Execution time, 95th percentile
    pub p95: u64,
    /// Execution time, 99th percentile
    pub p99: u64,
}

} // verus!
