//! What can go wrong, by kind.

use vstd::prelude::*;

verus! {

/// A failure of the storage backend, or of reading what it returned.
#[derive(Debug)]
pub enum SqlError {
    /// A query that had to return a row returned none.
    QueryReturnedNoRows,
    /// A row has no column at this index.
    InvalidColumnIndex(usize),
    /// The column at this index holds a value of another type than was asked for.
    InvalidColumnType(usize),
    /// The column at this index holds an integer outside the range asked for.
    IntegralValueOutOfRange(usize, i64),
    /// An insert changed this number of rows, and not one.
    StatementChangedRows(usize),
    /// The parameter at this position, counted from 1, is an integer that
    /// the backend cannot hold.
    ParameterOutOfRange(usize),
    /// Whatever else the backend reports, as its message.
    Backend(String),
}

impl Clone for SqlError {
    fn clone(&self) -> (copy: Self)
        ensures
            copy == *self,
    {
        match self {
            SqlError::QueryReturnedNoRows => SqlError::QueryReturnedNoRows,
            SqlError::InvalidColumnIndex(i) => SqlError::InvalidColumnIndex(*i),
            SqlError::InvalidColumnType(i) => SqlError::InvalidColumnType(*i),
            SqlError::IntegralValueOutOfRange(i, v) => SqlError::IntegralValueOutOfRange(*i, *v),
            SqlError::StatementChangedRows(n) => SqlError::StatementChangedRows(*n),
            SqlError::ParameterOutOfRange(n) => SqlError::ParameterOutOfRange(*n),
            SqlError::Backend(message) => SqlError::Backend(message.clone()),
        }
    }
}

/// A request that the catalog cannot serve as it stands.
#[derive(Debug)]
pub enum ApiError {
    InvalidProjectName,
    InvalidServiceName,
    ProjectNotFound,
    /// No service of this name under the project.
    ServiceNotFound(String),
    InvalidTimestamp,
    RecordNotFound,
    UnableToCreateDatabasePath,
}

/// An error as it goes over the wire: a stable code and a message.
#[derive(Debug)]
pub struct ErrorResponse {
    pub code: u16,
    pub message: String,
}

impl ApiError {
    /// The message of the error: the words that name its kind, and for a
    /// service that was not found the name that was asked for.
    pub open spec fn message_text(&self) -> Seq<char> {
        match self {
            ApiError::InvalidProjectName => "invalid project name"@,
            ApiError::InvalidServiceName => "invalid service name"@,
            ApiError::ProjectNotFound => "project not found"@,
            ApiError::ServiceNotFound(name) => "service not found: "@ + name@,
            ApiError::InvalidTimestamp => "invalid timestamp"@,
            ApiError::RecordNotFound => "record not found"@,
            ApiError::UnableToCreateDatabasePath => "unable to create database path"@,
        }
    }

    /// The code that the kind of the error goes over the wire under. Each
    /// kind has a code of its own, and the code of a kind never changes.
    pub open spec fn code(&self) -> u16 {
        match self {
            ApiError::InvalidProjectName => 10001,
            ApiError::InvalidServiceName => 10002,
            ApiError::ProjectNotFound => 10003,
            ApiError::ServiceNotFound(_) => 10004,
            ApiError::InvalidTimestamp => 10005,
            ApiError::RecordNotFound => 10006,
            ApiError::UnableToCreateDatabasePath => 10007,
        }
    }

    /// The message of the error.
    pub fn message(&self) -> (text: String)
        ensures
            text@ == self.message_text(),
    {
        match self {
            ApiError::InvalidProjectName => "invalid project name".to_owned(),
            ApiError::InvalidServiceName => "invalid service name".to_owned(),
            ApiError::ProjectNotFound => "project not found".to_owned(),
            ApiError::ServiceNotFound(name) => {
                let mut text = "service not found: ".to_owned();
                text.append(name.as_str());
                text
            },
            ApiError::InvalidTimestamp => "invalid timestamp".to_owned(),
            ApiError::RecordNotFound => "record not found".to_owned(),
            ApiError::UnableToCreateDatabasePath => "unable to create database path".to_owned(),
        }
    }

    /// The wire form of the error: the code of its kind, and its message.
    pub fn json(&self) -> (response: ErrorResponse)
        ensures
            response.code == self.code(),
            response.message@ == self.message_text(),
    {
        let code: u16 = match self {
            ApiError::InvalidProjectName => 10001,
            ApiError::InvalidServiceName => 10002,
            ApiError::ProjectNotFound => 10003,
            ApiError::ServiceNotFound(_) => 10004,
            ApiError::InvalidTimestamp => 10005,
            ApiError::RecordNotFound => 10006,
            ApiError::UnableToCreateDatabasePath => 10007,
        };
        ErrorResponse { code, message: self.message() }
    }
}

/// Two errors that go out under one code are of one kind.
pub proof fn lemma_code_tells_the_kind(a: ApiError, b: ApiError)
    requires
        a.code() == b.code(),
    ensures
        a is InvalidProjectName <==> b is InvalidProjectName,
        a is InvalidServiceName <==> b is InvalidServiceName,
        a is ProjectNotFound <==> b is ProjectNotFound,
        a is ServiceNotFound <==> b is ServiceNotFound,
        a is InvalidTimestamp <==> b is InvalidTimestamp,
        a is RecordNotFound <==> b is RecordNotFound,
        a is UnableToCreateDatabasePath <==> b is UnableToCreateDatabasePath,
{
}

/// An error of the store: the backend failed, or the request cannot be served.
#[derive(Debug)]
pub enum Error {
    Rusqlite(SqlError),
    ApiError(ApiError),
}

impl Error {
    /// The message that names the kind of the error; an `ApiError` adds its own.
    pub open spec fn message_text(&self) -> Seq<char> {
        match self {
            Error::Rusqlite(_) => "rusqlite error"@,
            Error::ApiError(inner) => "api error: "@ + inner.message_text(),
        }
    }

    /// The message that names the kind of the error; an `ApiError` adds its own.
    pub fn message(&self) -> (text: String)
        ensures
            text@ == self.message_text(),
    {
        match self {
            Error::Rusqlite(_) => "rusqlite error".to_owned(),
            Error::ApiError(inner) => {
                let mut text = "api error: ".to_owned();
                let detail = inner.message();
                text.append(detail.as_str());
                text
            },
        }
    }
}

impl From<SqlError> for Error {
    fn from(error: SqlError) -> (wrapped: Self) {
        Error::Rusqlite(error)
    }
}

impl vstd::std_specs::convert::FromSpecImpl<SqlError> for Error {
    open spec fn obeys_from_spec() -> bool {
        true
    }

    open spec fn from_spec(error: SqlError) -> Self {
        Error::Rusqlite(error)
    }
}

impl From<ApiError> for Error {
    fn from(error: ApiError) -> (wrapped: Self) {
        Error::ApiError(error)
    }
}

impl vstd::std_specs::convert::FromSpecImpl<ApiError> for Error {
    open spec fn obeys_from_spec() -> bool {
        true
    }

    open spec fn from_spec(error: ApiError) -> Self {
        Error::ApiError(error)
    }
}

/// What the store returns.
pub type Result<T> = std::result::Result<T, Error>;

} // verus!
