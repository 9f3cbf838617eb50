//! Records as the admin surface sees them, and their statistics.

use crate::database::from_row::{field, field_of, FromRow};
use crate::database::value::Row;
use crate::error::SqlError;
use vstd::prelude::*;

verus! {

#[derive(Debug)]
pub struct ListRequest {
    pub project_name: String,
    pub service_name: String,
}

#[derive(Debug)]
pub struct ListResponse {
    pub records: Vec<ListRecord>,
}

/// A record of a service: its surrogate id and its name.
#[derive(Debug)]
pub struct ListRecord {
    pub id: i64,
    pub name: String,
}

#[derive(Debug)]
pub struct DataRequest {
    pub project_name: String,
    pub service_name: String,
    pub record_name: String,
}

#[derive(Debug)]
pub struct DataResponse {
    pub entries: Vec<DataEntry>,
}

/// The statistics of one group of observations of a record; times are in
/// microseconds.
#[derive(Debug)]
pub struct DataEntry {
    /// Group by value
    pub group_by: String,
    /// Total record count
    pub count: i64,
    /// Total record errors
    pub errors: i64,
    /// Total execution time
    pub execution_time: u64,
    /// Minimum record execution time
    pub min: u64,
    /// Maximum record execution time
    pub max: u64,
    /// Average record execution time, rounded to the nearest microsecond
    pub avg: u64,
    /// Execution time, 50th percentile
    pub p50: u64,
    /// Execution time, 95th percentile
    pub p95: u64,
}

impl FromRow for ListRecord {
    /// The columns are the id and the name.
    open spec fn decoded(row: Row) -> Result<Self, SqlError> {
        match field_of::<i64>(row, 0) {
            Err(error) => Err(error),
            Ok(id) => match field_of::<String>(row, 1) {
                Err(error) => Err(error),
                Ok(name) => Ok(ListRecord { id, name }),
            },
        }
    }

    fn from_row(row: &Row) -> (result: Result<Self, SqlError>) {
        match field::<i64>(row, 0) {
            Err(error) => Err(error),
            Ok(id) => match field::<String>(row, 1) {
                Err(error) => Err(error),
                Ok(name) => Ok(ListRecord { id, name }),
            },
        }
    }
}

impl FromRow for DataEntry {
    /// The columns are the group, the count, the summed, the average, the
    /// greatest and the least execution time, and the count of errors, in
    /// this order. The percentiles are not among them and start at zero.
    open spec fn decoded(row: Row) -> Result<Self, SqlError> {
        match field_of::<String>(row, 0) {
            Err(error) => Err(error),
            Ok(group_by) => match field_of::<i64>(row, 1) {
                Err(error) => Err(error),
                Ok(count) => match field_of::<u64>(row, 2) {
                    Err(error) => Err(error),
                    Ok(execution_time) => match field_of::<u64>(row, 3) {
                        Err(error) => Err(error),
                        Ok(avg) => match field_of::<u64>(row, 4) {
                            Err(error) => Err(error),
                            Ok(max) => match field_of::<u64>(row, 5) {
                                Err(error) => Err(error),
                                Ok(min) => match field_of::<i64>(row, 6) {
                                    Err(error) => Err(error),
                                    Ok(errors) => Ok(
                                        DataEntry {
                                            group_by,
                                            count,
                                            errors,
                                            execution_time,
                                            min,
                                            max,
                                            avg,
                                            p50: 0,
                                            p95: 0,
                                        },
                                    ),
                                },
                            },
                        },
                    },
                },
            },
        }
    }

    fn from_row(row: &Row) -> (result: Result<Self, SqlError>) {
        let group_by = match field::<String>(row, 0) {
            Err(error) => {
                return Err(error);
            },
            Ok(value) => value,
        };
        let count = match field::<i64>(row, 1) {
            Err(error) => {
                return Err(error);
            },
            Ok(value) => value,
        };
        let execution_time = match field::<u64>(row, 2) {
            Err(error) => {
                return Err(error);
            },
            Ok(value) => value,
        };
        let avg = match field::<u64>(row, 3) {
            Err(error) => {
                return Err(error);
            },
            Ok(value) => value,
        };
        let max = match field::<u64>(row, 4) {
            Err(error) => {
                return Err(error);
            },
            Ok(value) => value,
        };
        let min = match field::<u64>(row, 5) {
            Err(error) => {
                return Err(error);
            },
            Ok(value) => value,
        };
        let errors = match field::<i64>(row, 6) {
            Err(error) => {
                return Err(error);
            },
            Ok(value) => value,
        };
        Ok(DataEntry { group_by, count, errors, execution_time, min, max, avg, p50: 0, p95: 0 })
    }
}

/// The offset, among `count` observations sorted ascending, of the one that
/// stands for the `percentile`-th percentile: `count * percentile / 100`,
/// the fraction cut off. This is the nearest rank by truncation; nothing is
/// interpolated.
pub open spec fn rank_of(count: int, percentile: int) -> int {
    if count >= 0 {
        (count * percentile) / 100
    } else {
        -(((-count) * percentile) / 100)
    }
}

/// The offset of the observation that stands for a percentile.
pub fn percentile_rank(count: i64, percentile: u8) -> (rank: i64)
    requires
        percentile <= 100,
    ensures
        rank == rank_of(count as int, percentile as int),
{
    if count >= 0 {
        assert(count * percentile <= 0x7fff_ffff_ffff_ffff * 100) by (nonlinear_arith)
            requires
                0 <= count <= 0x7fff_ffff_ffff_ffff,
                0 <= percentile <= 100,
        ;
        let wide: u128 = (count as u128) * (percentile as u128);
        let cut: u128 = wide / 100;
        assert(cut <= count) by (nonlinear_arith)
            requires
                cut == (count as int * percentile as int) / 100,
                0 <= count,
                0 <= percentile <= 100,
        ;
        cut as i64
    } else {
        let size: u128 = (-(count as i128)) as u128;
        assert(size * percentile <= 0x8000_0000_0000_0000 * 100) by (nonlinear_arith)
            requires
                0 <= size <= 0x8000_0000_0000_0000,
                0 <= percentile <= 100,
        ;
        let wide: u128 = size * (percentile as u128);
        let cut: u128 = wide / 100;
        assert(cut <= size) by (nonlinear_arith)
            requires
                cut == (size as int * percentile as int) / 100,
                0 <= size,
                0 <= percentile <= 100,
        ;
        (-(cut as i128)) as i64
    }
}

/// The rank of a percentile below the hundredth falls among the
/// observations, so the observation at that offset exists.
pub proof fn lemma_rank_in_range(count: int, percentile: int)
    requires
        count >= 1,
        0 <= percentile < 100,
    ensures
        0 <= rank_of(count, percentile) < count,
{
    assert(0 <= (count * percentile) / 100 < count) by (nonlinear_arith)
        requires
            count >= 1,
            0 <= percentile < 100,
    ;
}

/// More observations never lower the rank of a percentile.
pub proof fn lemma_rank_is_monotonic(fewer: int, more: int, percentile: int)
    requires
        0 <= fewer <= more,
        0 <= percentile,
    ensures
        rank_of(fewer, percentile) <= rank_of(more, percentile),
{
    assert((fewer * percentile) / 100 <= (more * percentile) / 100) by (nonlinear_arith)
        requires
            0 <= fewer <= more,
            0 <= percentile,
    ;
}

impl DataEntry {
    /// The entry with its percentiles filled in.
    pub fn with_percentiles(&self, p50: u64, p95: u64) -> (entry: Self)
        ensures
            entry == (DataEntry { p50, p95, ..*self }),
    {
        DataEntry {
            group_by: self.group_by.clone(),
            count: self.count,
            errors: self.errors,
            execution_time: self.execution_time,
            min: self.min,
            max: self.max,
            avg: self.avg,
            p50,
            p95,
        }
    }
}

} // verus!
