//! Running statements against a storage backend.

pub mod connection;
pub mod database;
pub mod from_row;
pub mod query;
pub mod value;

pub use connection::{DatabaseConnection, DatabaseOpen, SqlValueView};
pub use from_row::{FromRow, FromSql};
pub use database::{Database, DatabaseBuilder, Transaction};
pub use query::{DatabaseQuery, DatabaseQueryShortcut};
pub use value::{Row, SqlValue};
