//! From what a lookup found to an identifier or a typed miss.

use crate::error::{ApiError, Error, SqlError};
use vstd::prelude::*;

verus! {

/// Whether `result` is what the lookup of a project makes of what was
/// found: the id, or the miss `ProjectNotFound`, or the failure of the
/// backend.
pub open spec fn project_resolved(
    found: Result<Option<i64>, SqlError>,
    result: Result<i64, Error>,
) -> bool {
    match found {
        Err(error) => result == Err::<i64, Error>(Error::Rusqlite(error)),
        Ok(None) => result == Err::<i64, Error>(Error::ApiError(ApiError::ProjectNotFound)),
        Ok(Some(id)) => result == Ok::<i64, Error>(id),
    }
}

/// Whether `result` is what the lookup of the service `name` makes of what
/// was found: the id, or the miss `ServiceNotFound` with the name that was
/// asked for, or the failure of the backend.
pub open spec fn service_resolved(
    found: Result<Option<i64>, SqlError>,
    name: Seq<char>,
    result: Result<i64, Error>,
) -> bool {
    match found {
        Err(error) => result == Err::<i64, Error>(Error::Rusqlite(error)),
        Ok(None) => result matches Err(Error::ApiError(ApiError::ServiceNotFound(missing)))
            && missing@ == name,
        Ok(Some(id)) => result == Ok::<i64, Error>(id),
    }
}

/// Whether `result` is what the lookup of a record makes of what was found:
/// the id, or the miss `RecordNotFound`, or the failure of the backend.
pub open spec fn record_resolved(
    found: Result<Option<i64>, SqlError>,
    result: Result<i64, Error>,
) -> bool {
    match found {
        Err(error) => result == Err::<i64, Error>(Error::Rusqlite(error)),
        Ok(None) => result == Err::<i64, Error>(Error::ApiError(ApiError::RecordNotFound)),
        Ok(Some(id)) => result == Ok::<i64, Error>(id),
    }
}

/// The id of the project that was looked up, or the reason why there is none.
pub fn resolve_project(found: Result<Option<i64>, SqlError>) -> (result: Result<i64, Error>)
    ensures
        project_resolved(found, result),
{
    match found {
        Err(error) => Err(Error::Rusqlite(error)),
        Ok(None) => Err(Error::ApiError(ApiError::ProjectNotFound)),
        Ok(Some(id)) => Ok(id),
    }
}

/// The id of the service `name` that was looked up, or the reason why there
/// is none.
pub fn resolve_service(found: Result<Option<i64>, SqlError>, name: &str) -> (result: Result<
    i64,
    Error,
>)
    ensures
        service_resolved(found, name@, result),
{
    match found {
        Err(error) => Err(Error::Rusqlite(error)),
        Ok(None) => Err(Error::ApiError(ApiError::ServiceNotFound(name.to_owned()))),
        Ok(Some(id)) => Ok(id),
    }
}

/// The id of the record that was looked up, or the reason why there is none.
pub fn resolve_record(found: Result<Option<i64>, SqlError>) -> (result: Result<i64, Error>)
    ensures
        record_resolved(found, result),
{
    match found {
        Err(error) => Err(Error::Rusqlite(error)),
        Ok(None) => Err(Error::ApiError(ApiError::RecordNotFound)),
        Ok(Some(id)) => Ok(id),
    }
}

/// Whether `result` is what resolving the service `name` under a project
/// gives, where `project` is what the lookup of the project found and
/// `service` what the lookup of the service under that project found. The
/// service is looked at only where the project was found.
pub open spec fn service_under_project(
    project: Result<Option<i64>, SqlError>,
    service: Result<Option<i64>, SqlError>,
    name: Seq<char>,
    result: Result<i64, Error>,
) -> bool {
    match project {
        Ok(Some(_)) => service_resolved(service, name, result),
        _ => project_resolved(project, result),
    }
}

/// Under a project that does not exist the result is `ProjectNotFound`,
/// whatever the name of the service is and whatever a lookup of it would find.
pub proof fn lemma_missing_project_decides(
    service: Result<Option<i64>, SqlError>,
    name: Seq<char>,
    result: Result<i64, Error>,
)
    requires
        service_under_project(Ok(None), service, name, result),
    ensures
        result == Err::<i64, Error>(Error::ApiError(ApiError::ProjectNotFound)),
{
}

/// Under a project that exists, a service that does not exist is the miss
/// `ServiceNotFound`, and the miss carries the name that was asked for.
pub proof fn lemma_missing_service_is_named(
    project_id: i64,
    name: Seq<char>,
    result: Result<i64, Error>,
)
    requires
        service_under_project(Ok(Some(project_id)), Ok(None), name, result),
    ensures
        result matches Err(Error::ApiError(ApiError::ServiceNotFound(missing))) && missing@ == name,
{
}

} // verus!
