//! The core of a self-hosted telemetry backend.
//!
//! Clients push timed records; the backend keeps them by project, service
//! and record, and serves statistics of them: counts, error counts, sums,
//! averages and percentiles of the execution time.
//!
//! - [`query`] builds SQL statements: expression trees and clause lists, and
//!   a generator whose text is a function of the tree alone.
//! - [`database`] runs statements against a storage backend that the
//!   program around the library supplies, reads rows into typed values,
//!   and reports every run to the telemetry sink of the connection.
//! - [`store`] is the catalog of projects, services and records, the
//!   registry of the opened service stores, and the time-series tables.
//! - [`names`], [`record`], [`timestamp`] and [`client`] hold the rules of
//!   names, of percentile ranks, of moments, and of the records that a
//!   service reports about itself.
//!
//! Contracts speak of the text of a statement as a sequence of characters,
//! and of an answer of the backend as whatever the backend gave back to
//! exactly that text and those parameters.

pub mod client;
pub mod database;
pub mod error;
pub mod metric;
pub mod names;
pub mod project;
pub mod query;
pub mod record;
pub mod service;
pub mod sql_trace;
pub mod store;
pub mod text;
pub mod timestamp;

pub use client::{Client, Outbox, Record};
pub use database::{
    Database, DatabaseBuilder, DatabaseConnection, DatabaseOpen, DatabaseQuery,
    DatabaseQueryShortcut, FromRow, FromSql, Row, SqlValue, Transaction,
};
pub use error::{ApiError, Error, ErrorResponse, SqlError};
pub use timestamp::Timestamp;
