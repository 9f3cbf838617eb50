//! Projects as the admin surface sees them.

use crate::database::from_row::{field, field_of, FromRow};
use crate::database::value::Row;
use crate::error::SqlError;
use vstd::prelude::*;

verus! {

#[derive(Debug)]
pub struct CreateRequest {
    pub project_name: String,
    pub project_description: String,
}

#[derive(Clone, Copy, Debug, PartialEq, Eq, Structural)]
pub struct CreateResponse {
    pub project_id: i64,
}

#[derive(Debug)]
pub struct ListResponse {
    pub projects: Vec<ListProject>,
}

/// A project of the catalog: its surrogate id, its name and its description.
#[derive(Debug)]
pub struct ListProject {
    pub id: i64,
    pub name: String,
    pub description: String,
}

impl FromRow for ListProject {
    /// The columns are the id, the name and the description.
    open spec fn decoded(row: Row) -> Result<Self, SqlError> {
        match field_of::<i64>(row, 0) {
            Err(error) => Err(error),
            Ok(id) => match field_of::<String>(row, 1) {
                Err(error) => Err(error),
                Ok(name) => match field_of::<String>(row, 2) {
                    Err(error) => Err(error),
                    Ok(description) => Ok(ListProject { id, name, description }),
                },
            },
        }
    }

    fn from_row(row: &Row) -> (result: Result<Self, SqlError>) {
        match field::<i64>(row, 0) {
            Err(error) => Err(error),
            Ok(id) => match field::<String>(row, 1) {
                Err(error) => Err(error),
                Ok(name) => match field::<String>(row, 2) {
                    Err(error) => Err(error),
                    Ok(description) => Ok(ListProject { id, name, description }),
                },
            },
        }
    }
}

} // verus!
