//! Services as the admin surface sees them.

use crate::database::from_row::{field, field_of, FromRow};
use crate::database::value::Row;
use crate::error::SqlError;
use vstd::prelude::*;

verus! {

#[derive(Debug)]
pub struct CreateRequest {
    pub project_name: String,
    pub service_name: String,
    pub service_description: String,
}

#[derive(Clone, Copy, Debug, PartialEq, Eq, Structural)]
pub struct CreateResponse {
    pub service_id: i64,
}

#[derive(Debug)]
pub struct ListRequest {
    pub project_name: String,
}

#[derive(Debug)]
pub struct ListResponse {
    pub services: Vec<ListService>,
}

/// A service of a project: its surrogate id, its name and its description.
#[derive(Debug)]
pub struct ListService {
    pub id: i64,
    pub name: String,
    pub description: String,
}

impl FromRow for ListService {
    /// The columns are the id, the name and the description.
    open spec fn decoded(row: Row) -> Result<Self, SqlError> {
        match field_of::<i64>(row, 0) {
            Err(error) => Err(error),
            Ok(id) => match field_of::<String>(row, 1) {
                Err(error) => Err(error),
                Ok(name) => match field_of::<String>(row, 2) {
                    Err(error) => Err(error),
                    Ok(description) => Ok(ListService { id, name, description }),
                },
            },
        }
    }

    fn from_row(row: &Row) -> (result: Result<Self, SqlError>) {
        match field::<i64>(row, 0) {
            Err(error) => Err(error),
            Ok(id) => match field::<String>(row, 1) {
                Err(error) => Err(error),
                Ok(name) => match field::<String>(row, 2) {
                    Err(error) => Err(error),
                    Ok(description) => Ok(ListService { id, name, description }),
                },
            },
        }
    }
}

} // verus!
