//! What is recorded of a block, a segment and a snapshot.

use std::collections::HashMap;
use vstd::prelude::*;
use crate::datavalues::data_value::DataValue;
use crate::datavalues::data_value::Scalar;

verus! {

/// The id of a column: its position in the table's schema.
pub type ColumnId = usize;

/// Statistics of one column of a block, or of a column over several blocks.
///
/// `min` and `max` are the least and the greatest present value; both are
/// the null of the column's type where no value is present.
#[derive(Debug, PartialEq, Eq)]
pub struct ColStats {
    pub min: DataValue,
    pub max: DataValue,
    pub null_count: u64,
    pub in_memory_size: u64,
}

/// The mathematical content of a `ColStats`.
pub struct ColStatsSpec {
    pub min: Scalar,
    pub max: Scalar,
    pub null_count: u64,
    pub in_memory_size: u64,
}

impl View for ColStats {
    type V = ColStatsSpec;

    open spec fn view(&self) -> ColStatsSpec {
        ColStatsSpec {
            min: self.min@,
            max: self.max@,
            null_count: self.null_count,
            in_memory_size: self.in_memory_size,
        }
    }
}

impl Clone for ColStats {
    fn clone(&self) -> (r: Self)
        ensures
            r@ == self@,
    {
        ColStats {
            min: self.min.clone(),
            max: self.max.clone(),
            null_count: self.null_count,
            in_memory_size: self.in_memory_size,
        }
    }
}

/// The statistics of the columns of a block or of a table, by column id.
pub type ColumnsStats = HashMap<ColumnId, ColStats>;

/// The view of the statistics of the columns: the view of each, under its
/// column id.
pub open spec fn col_stats_view(stats: Map<ColumnId, ColStats>) -> Map<ColumnId, ColStatsSpec> {
    Map::new(|c: ColumnId| stats.contains_key(c), |c: ColumnId| stats[c]@)
}

/// The view has an entry under the ids that the statistics have one under.
pub proof fn lemma_view_columns(stats: Map<ColumnId, ColStats>, n: nat)
    ensures
        col_stats_view(stats).dom() == stats.dom(),
        is_dense(col_stats_view(stats), n) == is_dense(stats, n),
{
    assert(col_stats_view(stats).dom() =~= stats.dom());
    if is_dense(stats, n) {
        assert forall|c: ColumnId| #[trigger] col_stats_view(stats).contains_key(c) <==> c < n by {
            assert(stats.contains_key(c) <==> c < n);
        }
    }
    if is_dense(col_stats_view(stats), n) {
        assert forall|c: ColumnId| #[trigger] stats.contains_key(c) <==> c < n by {
            assert(col_stats_view(stats).contains_key(c) <==> c < n);
        }
    }
}

/// The map has an entry for each of the first `n` column ids, and for no
/// other id.
pub open spec fn is_dense<V>(stats: Map<ColumnId, V>, n: nat) -> bool {
    forall|c: ColumnId| #[trigger] stats.contains_key(c) <==> c < n
}

/// A map with an entry for each of the first `n` column ids, and for no
/// other, has `n` entries.
pub proof fn lemma_dense_len<V>(stats: Map<ColumnId, V>, n: nat)
    requires
        is_dense(stats, n),
        n <= usize::MAX,
    ensures
        stats.dom().finite(),
        stats.dom().len() == n,
    decreases n,
{
    if n == 0 {
        assert(stats.dom() =~= Set::<ColumnId>::empty());
    } else {
        let last = (n - 1) as ColumnId;
        assert(stats.contains_key(last) <==> last < n);
        let rest = stats.remove(last);
        assert forall|c: ColumnId| #[trigger] rest.contains_key(c) <==> c < (n - 1) as nat by {
            assert(stats.contains_key(c) <==> c < n);
        }
        lemma_dense_len(rest, (n - 1) as nat);
        assert(stats.dom() =~= rest.dom().insert(last));
    }
}

/// A finite map of `n` entries that has one for each of the first `n`
/// column ids has no other.
pub proof fn lemma_full_is_dense<V>(stats: Map<ColumnId, V>, n: nat)
    requires
        stats.dom().finite(),
        stats.dom().len() == n,
        n <= usize::MAX,
        forall|c: ColumnId| c < n ==> #[trigger] stats.contains_key(c),
    ensures
        is_dense(stats, n),
{
    let first = Set::new(|c: ColumnId| c < n);
    let only = Map::new(|c: ColumnId| c < n, |c: ColumnId| stats[c]);
    assert(is_dense(only, n));
    lemma_dense_len(only, n);
    assert(only.dom() =~= first);
    assert(first.subset_of(stats.dom()));
    vstd::set_lib::lemma_subset_equality(first, stats.dom());
}

/// Whether the map has an entry for each of the first `n` column ids, and
/// for no other id.
pub fn has_columns(stats: &ColumnsStats, n: usize) -> (b: bool)
    ensures
        b == is_dense(stats@, n as nat),
{
    if stats.len() != n {
        proof {
            if is_dense(stats@, n as nat) {
                lemma_dense_len(stats@, n as nat);
            }
        }
        return false;
    }
    let mut c: usize = 0;
    while c < n
        invariant
            c <= n,
            stats@.dom().len() == n,
            forall|k: ColumnId| k < c ==> #[trigger] stats@.contains_key(k),
        decreases n - c,
    {
        if !stats.contains_key(&c) {
            return false;
        }
        c = c + 1;
    }
    proof {
        lemma_full_is_dense(stats@, n as nat);
    }
    true
}

/// A copy of the statistics of the columns.
pub fn clone_col_stats(stats: &ColumnsStats) -> (r: ColumnsStats)
    ensures
        col_stats_view(r@) == col_stats_view(stats@),
{
    stats.clone()
}

/// What is recorded of one block: where its file lies, how many rows it
/// holds, how many bytes were written for it, and the statistics of each of
/// its columns, by column id.
#[derive(Debug, PartialEq, Eq)]
pub struct BlockMeta {
    pub row_count: u64,
    pub byte_size: u64,
    pub location: String,
    pub col_stats: ColumnsStats,
}

/// The mathematical content of a `BlockMeta`.
pub struct BlockMetaSpec {
    pub row_count: u64,
    pub byte_size: u64,
    pub location: Seq<char>,
    pub col_stats: Map<ColumnId, ColStatsSpec>,
}

impl View for BlockMeta {
    type V = BlockMetaSpec;

    open spec fn view(&self) -> BlockMetaSpec {
        BlockMetaSpec {
            row_count: self.row_count,
            byte_size: self.byte_size,
            location: self.location@,
            col_stats: col_stats_view(self.col_stats@),
        }
    }
}

impl Clone for BlockMeta {
    fn clone(&self) -> (r: Self)
        ensures
            r@ == self@,
    {
        BlockMeta {
            row_count: self.row_count,
            byte_size: self.byte_size,
            location: self.location.clone(),
            col_stats: clone_col_stats(&self.col_stats),
        }
    }
}

/// The view of a list of block metas, in their order.
pub open spec fn block_metas_view(blocks: Seq<BlockMeta>) -> Seq<BlockMetaSpec> {
    Seq::new(blocks.len(), |i: int| blocks[i]@)
}

/// A copy of a list of block metas.
pub fn clone_block_metas(blocks: &Vec<BlockMeta>) -> (r: Vec<BlockMeta>)
    ensures
        block_metas_view(r@) == block_metas_view(blocks@),
{
    let mut out: Vec<BlockMeta> = Vec::new();
    let mut i: usize = 0;
    while i < blocks.len()
        invariant
            i <= blocks.len(),
            out.len() == i,
            forall|j: int| 0 <= j < i ==> (#[trigger] out@[j])@ == blocks@[j]@,
        decreases blocks.len() - i,
    {
        out.push(blocks[i].clone());
        i = i + 1;
    }
    assert(block_metas_view(out@) =~= block_metas_view(blocks@));
    out
}

/// Aggregated statistics of a segment or of a snapshot.
#[derive(Debug, PartialEq, Eq)]
pub struct Stats {
    pub row_count: u64,
    pub byte_size: u64,
    pub col_stats: ColumnsStats,
}

/// The mathematical content of a `Stats`.
pub struct StatsSpec {
    pub row_count: u64,
    pub byte_size: u64,
    pub col_stats: Map<ColumnId, ColStatsSpec>,
}

impl View for Stats {
    type V = StatsSpec;

    open spec fn view(&self) -> StatsSpec {
        StatsSpec {
            row_count: self.row_count,
            byte_size: self.byte_size,
            col_stats: col_stats_view(self.col_stats@),
        }
    }
}

impl Clone for Stats {
    fn clone(&self) -> (r: Self)
        ensures
            r@ == self@,
    {
        Stats {
            row_count: self.row_count,
            byte_size: self.byte_size,
            col_stats: clone_col_stats(&self.col_stats),
        }
    }
}

/// The blocks that one append wrote, in the order in which they arrived, and
/// their aggregated statistics.
#[derive(Debug, PartialEq, Eq)]
pub struct SegmentInfo {
    pub blocks: Vec<BlockMeta>,
    pub summary: Stats,
}

/// The mathematical content of a `SegmentInfo`.
pub struct SegmentSpec {
    pub blocks: Seq<BlockMetaSpec>,
    pub summary: StatsSpec,
}

impl View for SegmentInfo {
    type V = SegmentSpec;

    open spec fn view(&self) -> SegmentSpec {
        SegmentSpec { blocks: block_metas_view(self.blocks@), summary: self.summary@ }
    }
}

impl Clone for SegmentInfo {
    fn clone(&self) -> (r: Self)
        ensures
            r@ == self@,
    {
        SegmentInfo { blocks: clone_block_metas(&self.blocks), summary: self.summary.clone() }
    }
}

/// The record of one append: the segment it produced and where that segment
/// was written.
#[derive(Debug, PartialEq, Eq)]
pub struct AppendOperationLogEntry {
    pub segment_location: String,
    pub segment_info: SegmentInfo,
}

/// The mathematical content of an `AppendOperationLogEntry`.
pub struct LogEntrySpec {
    pub segment_location: Seq<char>,
    pub segment_info: SegmentSpec,
}

impl View for AppendOperationLogEntry {
    type V = LogEntrySpec;

    open spec fn view(&self) -> LogEntrySpec {
        LogEntrySpec {
            segment_location: self.segment_location@,
            segment_info: self.segment_info@,
        }
    }
}

impl Clone for AppendOperationLogEntry {
    fn clone(&self) -> (r: Self)
        ensures
            r@ == self@,
    {
        AppendOperationLogEntry {
            segment_location: self.segment_location.clone(),
            segment_info: self.segment_info.clone(),
        }
    }
}

impl AppendOperationLogEntry {
    pub fn new(segment_location: String, segment_info: SegmentInfo) -> (e: AppendOperationLogEntry)
        ensures
            e.segment_location == segment_location,
            e.segment_info == segment_info,
    {
        AppendOperationLogEntry { segment_location, segment_info }
    }
}

} // verus!
