//! Blocks that a read can pass over.
//!
//! The minimum and maximum that are recorded of each column of a block tell
//! of some filters that no row of the block meets them. Such a block need
//! not be read. To pass over a block is never required: it only saves the
//! read.

use vstd::prelude::*;
use crate::datavalues::data_array::lemma_count_missing_bound;
use crate::datavalues::data_type::DataType;
use crate::datavalues::data_value::DataValue;
use crate::datavalues::data_value::Scalar;
use crate::datavalues::value_order::lemma_value_le_transitive;
use crate::datavalues::value_order::value_le;
use crate::fuse::meta::BlockMeta;
use crate::fuse::meta::BlockMetaSpec;
use crate::fuse::meta::ColStats;
use crate::fuse::meta::ColStatsSpec;
use crate::fuse::meta::ColumnId;
use crate::fuse::statistics::is_stats_of;
use crate::fuse::statistics::lemma_all_missing;

verus! {

/// A filter on one column: the rows whose value is present and lies
/// between the two bounds, each of which may be left open.
#[derive(Debug, PartialEq, Eq)]
pub struct RangeFilter {
    pub column: ColumnId,
    pub low: Option<DataValue>,
    pub high: Option<DataValue>,
}

/// The mathematical content of a `RangeFilter`.
pub struct FilterSpec {
    pub column: ColumnId,
    pub low: Option<Scalar>,
    pub high: Option<Scalar>,
}

impl View for RangeFilter {
    type V = FilterSpec;

    open spec fn view(&self) -> FilterSpec {
        FilterSpec {
            column: self.column,
            low: bound_view(self.low),
            high: bound_view(self.high),
        }
    }
}

/// A read under the filter can pass over the block: the block has
/// statistics of the column of the filter, and they tell that no row meets
/// it.
pub open spec fn skips(filter: FilterSpec, block: BlockMetaSpec) -> bool {
    block.col_stats.contains_key(filter.column) && excludes(
        block.col_stats[filter.column],
        filter.low,
        filter.high,
    )
}

/// The view of a bound.
pub open spec fn bound_view(bound: Option<DataValue>) -> Option<Scalar> {
    match bound {
        Some(v) => Some(v@),
        None => None,
    }
}

/// The value meets the filter with the given bounds.
pub open spec fn meets(v: Scalar, low: Option<Scalar>, high: Option<Scalar>) -> bool {
    &&& !v.is_missing()
    &&& low is Some ==> value_le(low->0, v)
    &&& high is Some ==> value_le(v, high->0)
}

/// The statistics tell that no row meets the filter: no value is present,
/// or the greatest lies before the lower bound, or the least behind the
/// upper one.
pub open spec fn excludes(stats: ColStatsSpec, low: Option<Scalar>, high: Option<Scalar>) -> bool {
    ||| stats.min.is_missing()
    ||| low is Some && !value_le(low->0, stats.max)
    ||| high is Some && !value_le(stats.min, high->0)
}

/// Where the statistics of a column tell that no row meets a filter, no row
/// of the column does.
pub proof fn lemma_excluded_rows(
    stats: ColStatsSpec,
    rows: Seq<Scalar>,
    data_type: DataType,
    low: Option<Scalar>,
    high: Option<Scalar>,
)
    requires
        is_stats_of(stats, rows, data_type),
        excludes(stats, low, high),
    ensures
        forall|i: int| 0 <= i < rows.len() ==> !meets(#[trigger] rows[i], low, high),
{
    lemma_count_missing_bound(rows);
    if stats.null_count == rows.len() {
        lemma_all_missing(rows);
    } else {
        assert forall|i: int| 0 <= i < rows.len() implies !meets(#[trigger] rows[i], low, high) by {
            let v = rows[i];
            if meets(v, low, high) {
                assert(value_le(stats.min, v) && value_le(v, stats.max));
                if low is Some && !value_le(low->0, stats.max) {
                    lemma_value_le_transitive(low->0, v, stats.max);
                }
                if high is Some && !value_le(stats.min, high->0) {
                    lemma_value_le_transitive(stats.min, v, high->0);
                }
            }
        }
    }
}

impl RangeFilter {
    /// Whether the statistics of the column tell that no row meets the
    /// filter.
    pub fn excludes(&self, stats: &ColStats) -> (r: bool)
        ensures
            r == excludes(stats@, bound_view(self.low), bound_view(self.high)),
    {
        if stats.min.is_missing() {
            return true;
        }
        match &self.low {
            Some(low) => {
                if !low.le(&stats.max) {
                    return true;
                }
            },
            None => {},
        }
        match &self.high {
            Some(high) => !stats.min.le(high),
            None => false,
        }
    }

    /// Whether a read under the filter can pass over the block: the block
    /// has statistics of the column of the filter, and they tell that no
    /// row meets it.
    pub fn can_skip(&self, block: &BlockMeta) -> (r: bool)
        ensures
            r == skips(self@, block@),
    {
        match block.col_stats.get(&self.column) {
            Some(stats) => self.excludes(stats),
            None => false,
        }
    }
}

} // verus!
