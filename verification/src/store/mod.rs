//! The catalog of projects, services and records, and the time-series
//! tables of the records.

pub mod kodama;
pub mod provision;
pub mod resolve;
pub mod service;
pub mod statements;

pub use kodama::Kodama;
pub use provision::Provisioning;
pub use service::Service;
