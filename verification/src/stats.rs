//! Statistics a values node reports for its fully materialized relation.
//! Counts are exact because every row is memory-resident; value-level
//! statistics (min, max, sum, distinct count) are not derived and stay
//! absent.

use vstd::prelude::*;

use datafusion_common::ScalarValue;

verus! {

/// How precisely a count is known.
#[derive(Debug, PartialEq)]
pub enum CountPrecision {
    Exact(usize),
    Inexact(usize),
    Absent,
}

/// How precisely a scalar-valued statistic is known.
#[derive(Debug, PartialEq)]
pub enum ValuePrecision {
    Exact(ScalarValue),
    Inexact(ScalarValue),
    Absent,
}

/// Per-column statistics.
#[derive(Debug, PartialEq)]
pub struct ColumnStatistics {
    pub null_count: CountPrecision,
    pub max_value: ValuePrecision,
    pub min_value: ValuePrecision,
    pub sum_value: ValuePrecision,
    pub distinct_count: CountPrecision,
}

impl ColumnStatistics {
    /// Column statistics with nothing known of the column.
    pub fn new_unknown() -> (r: ColumnStatistics)
        ensures
            r.null_count is Absent,
            r.max_value is Absent,
            r.min_value is Absent,
            r.sum_value is Absent,
            r.distinct_count is Absent,
    {
        ColumnStatistics {
            null_count: CountPrecision::Absent,
            max_value: ValuePrecision::Absent,
            min_value: ValuePrecision::Absent,
            sum_value: ValuePrecision::Absent,
            distinct_count: CountPrecision::Absent,
        }
    }
}

/// Whole-relation statistics: a row count, a byte size, and one entry per
/// schema column.
#[derive(Debug, PartialEq)]
pub struct Statistics {
    pub num_rows: CountPrecision,
    pub total_byte_size: CountPrecision,
    pub column_statistics: Vec<ColumnStatistics>,
}

} // verus!
