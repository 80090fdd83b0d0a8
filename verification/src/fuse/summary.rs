//! The aggregated statistics of a list of blocks.

use std::collections::HashMap;
use vstd::prelude::*;
use crate::datavalues::data_type::DataType;
use crate::datavalues::data_value::DataValue;
use crate::datavalues::data_value::Scalar;
use crate::datavalues::value_order::lemma_value_le_reflexive;
use crate::datavalues::value_order::lemma_value_le_total;
use crate::datavalues::value_order::lemma_value_le_transitive;
use crate::datavalues::value_order::value_le;
use crate::errors::ErrorCode;
use crate::errors::ErrorKind;
use crate::fuse::meta::block_metas_view;
use crate::fuse::meta::BlockMeta;
use crate::fuse::meta::BlockMetaSpec;
use crate::fuse::meta::ColStats;
use crate::fuse::meta::ColStatsSpec;
use crate::fuse::meta::ColumnId;
use crate::fuse::meta::ColumnsStats;
use crate::fuse::meta::has_columns;
use crate::fuse::meta::is_dense;
use crate::fuse::meta::lemma_view_columns;
use crate::fuse::meta::SegmentInfo;
use crate::fuse::meta::Stats;
use crate::fuse::meta::StatsSpec;
use crate::sequences::lemma_total_prefix;
use crate::sequences::lemma_total_step;
use crate::sequences::total;

verus! {

/// The earlier of two values, where a missing one gives way to the other.
pub open spec fn lesser(a: Scalar, b: Scalar) -> Scalar {
    if a.is_missing() {
        b
    } else if b.is_missing() {
        a
    } else if value_le(b, a) {
        b
    } else {
        a
    }
}

/// The later of two values, where a missing one gives way to the other.
pub open spec fn greater(a: Scalar, b: Scalar) -> Scalar {
    if a.is_missing() {
        b
    } else if b.is_missing() {
        a
    } else if value_le(a, b) {
        b
    } else {
        a
    }
}

/// The earliest present value of a list; a missing value where none is
/// present.
pub open spec fn least(values: Seq<Scalar>) -> Scalar
    decreases values.len(),
{
    if values.len() == 0 {
        Scalar::Null
    } else {
        lesser(least(values.drop_last()), values.last())
    }
}

/// The latest present value of a list; a missing value where none is
/// present.
pub open spec fn greatest(values: Seq<Scalar>) -> Scalar
    decreases values.len(),
{
    if values.len() == 0 {
        Scalar::Null
    } else {
        greater(greatest(values.drop_last()), values.last())
    }
}

/// Among values of one type, `least` comes no later and `greatest` no
/// earlier than any present value, and each is missing only where every
/// value is.
pub proof fn lemma_least_greatest_bound(values: Seq<Scalar>, data_type: DataType)
    requires
        forall|i: int|
            0 <= i < values.len() && !(#[trigger] values[i]).is_missing() ==> values[i].data_type()
                == data_type,
    ensures
        forall|i: int|
            0 <= i < values.len() && !(#[trigger] values[i]).is_missing() ==> value_le(
                least(values),
                values[i],
            ) && value_le(values[i], greatest(values)),
        !least(values).is_missing() ==> least(values).data_type() == data_type,
        !greatest(values).is_missing() ==> greatest(values).data_type() == data_type,
    decreases values.len(),
{
    if values.len() > 0 {
        let front = values.drop_last();
        let last = values.last();
        assert forall|i: int| 0 <= i < front.len() && !(#[trigger] front[i]).is_missing() implies front[i].data_type()
            == data_type by {
            assert(front[i] == values[i]);
        }
        lemma_least_greatest_bound(front, data_type);
        let lo = least(front);
        let hi = greatest(front);
        if !last.is_missing() {
            lemma_value_le_reflexive(last);
            if !lo.is_missing() {
                lemma_value_le_total(lo, last);
                lemma_value_le_reflexive(lo);
            }
            if !hi.is_missing() {
                lemma_value_le_total(hi, last);
                lemma_value_le_reflexive(hi);
            }
        }
        assert forall|i: int| 0 <= i < values.len() && !(#[trigger] values[i]).is_missing() implies value_le(
            least(values),
            values[i],
        ) && value_le(values[i], greatest(values)) by {
            if i < front.len() {
                assert(front[i] == values[i]);
                assert(value_le(lo, values[i]) && value_le(values[i], hi));
                lemma_value_le_reflexive(lo);
                lemma_value_le_reflexive(hi);
                if !last.is_missing() {
                    lemma_value_le_transitive(least(values), lo, values[i]);
                    lemma_value_le_transitive(values[i], hi, greatest(values));
                }
            }
        }
    }
}

/// The row counts of the blocks, in their order.
pub open spec fn row_counts(blocks: Seq<BlockMetaSpec>) -> Seq<nat> {
    Seq::new(blocks.len(), |i: int| blocks[i].row_count as nat)
}

/// The byte sizes of the blocks, in their order.
pub open spec fn byte_sizes(blocks: Seq<BlockMetaSpec>) -> Seq<nat> {
    Seq::new(blocks.len(), |i: int| blocks[i].byte_size as nat)
}

/// The null counts of column `c` in the blocks, in their order.
pub open spec fn null_counts(blocks: Seq<BlockMetaSpec>, c: ColumnId) -> Seq<nat> {
    Seq::new(blocks.len(), |i: int| blocks[i].col_stats[c].null_count as nat)
}

/// The in-memory sizes of column `c` in the blocks, in their order.
pub open spec fn memory_sizes(blocks: Seq<BlockMetaSpec>, c: ColumnId) -> Seq<nat> {
    Seq::new(blocks.len(), |i: int| blocks[i].col_stats[c].in_memory_size as nat)
}

/// The minima of column `c` in the blocks, in their order.
pub open spec fn minima(blocks: Seq<BlockMetaSpec>, c: ColumnId) -> Seq<Scalar> {
    Seq::new(blocks.len(), |i: int| blocks[i].col_stats[c].min)
}

/// The maxima of column `c` in the blocks, in their order.
pub open spec fn maxima(blocks: Seq<BlockMetaSpec>, c: ColumnId) -> Seq<Scalar> {
    Seq::new(blocks.len(), |i: int| blocks[i].col_stats[c].max)
}

/// The number of columns that the blocks have statistics for: that of the
/// first block.
pub open spec fn width(blocks: Seq<BlockMetaSpec>) -> nat {
    if blocks.len() == 0 {
        0
    } else {
        blocks[0].col_stats.dom().len()
    }
}

/// All blocks have statistics for the same columns: for each of the first
/// column ids, as many as the first block has entries, and for no other.
pub open spec fn uniform(blocks: Seq<BlockMetaSpec>) -> bool {
    forall|i: int|
        0 <= i < blocks.len() ==> is_dense((#[trigger] blocks[i]).col_stats, width(blocks))
}

/// Every sum that the summary holds fits 64 bits.
pub open spec fn sums_fit(blocks: Seq<BlockMetaSpec>) -> bool {
    &&& total(row_counts(blocks)) <= u64::MAX
    &&& total(byte_sizes(blocks)) <= u64::MAX
    &&& forall|c: ColumnId|
        c < width(blocks) ==> total(#[trigger] null_counts(blocks, c)) <= u64::MAX
    &&& forall|c: ColumnId|
        c < width(blocks) ==> total(#[trigger] memory_sizes(blocks, c)) <= u64::MAX
}

/// The statistics of column `c` over all the blocks.
pub open spec fn column_summary(blocks: Seq<BlockMetaSpec>, c: ColumnId) -> ColStatsSpec {
    ColStatsSpec {
        min: least(minima(blocks, c)),
        max: greatest(maxima(blocks, c)),
        null_count: total(null_counts(blocks, c)) as u64,
        in_memory_size: total(memory_sizes(blocks, c)) as u64,
    }
}

/// `summary` aggregates the blocks: its row count and byte size are the sums
/// of theirs, and so for each column.
pub open spec fn is_summary_of(summary: StatsSpec, blocks: Seq<BlockMetaSpec>) -> bool {
    &&& summary.row_count == total(row_counts(blocks))
    &&& summary.byte_size == total(byte_sizes(blocks))
    &&& is_dense(summary.col_stats, width(blocks))
    &&& forall|c: ColumnId|
        c < width(blocks) ==> #[trigger] summary.col_stats[c] == column_summary(blocks, c)
}

impl DataValue {
    /// The earlier of two values, where a missing one gives way to the
    /// other.
    pub fn lesser(self, other: &DataValue) -> (r: DataValue)
        ensures
            r@ == lesser(self@, other@),
    {
        if self.is_missing() {
            other.clone()
        } else if other.is_missing() {
            self
        } else if other.le(&self) {
            other.clone()
        } else {
            self
        }
    }

    /// The later of two values, where a missing one gives way to the other.
    pub fn greater(self, other: &DataValue) -> (r: DataValue)
        ensures
            r@ == greater(self@, other@),
    {
        if self.is_missing() {
            other.clone()
        } else if other.is_missing() {
            self
        } else if self.le(other) {
            other.clone()
        } else {
            self
        }
    }
}

/// The failure of a summary over blocks that differ in the columns that
/// they have statistics for.
fn not_uniform() -> (e: ErrorCode)
    ensures
        e.kind == ErrorKind::BadArguments,
{
    ErrorCode::create(
        ErrorKind::BadArguments,
        String::from_str("the blocks of a segment differ in their columns"),
    )
}

/// The failure of a summary whose sums do not fit 64 bits.
fn sum_overflow() -> (e: ErrorCode)
    ensures
        e.kind == ErrorKind::Internal,
{
    ErrorCode::create(
        ErrorKind::Internal,
        String::from_str("the statistics of a segment exceed 64 bits"),
    )
}

/// The number of entries of the statistics of the first block; 0 where
/// there is no block.
fn first_width(blocks: &Vec<BlockMeta>) -> (n: usize)
    ensures
        n == width(block_metas_view(blocks@)),
{
    if blocks.len() == 0 {
        0
    } else {
        proof {
            lemma_view_columns(blocks@[0].col_stats@, 0);
        }
        blocks[0].col_stats.len()
    }
}

/// Whether all blocks have statistics for the same columns.
fn is_uniform(blocks: &Vec<BlockMeta>) -> (b: bool)
    ensures
        b == uniform(block_metas_view(blocks@)),
{
    let ghost metas = block_metas_view(blocks@);
    let n = first_width(blocks);
    let mut i: usize = 0;
    while i < blocks.len()
        invariant
            metas == block_metas_view(blocks@),
            n == width(metas),
            i <= blocks.len(),
            forall|j: int| 0 <= j < i ==> is_dense((#[trigger] metas[j]).col_stats, width(metas)),
        decreases blocks.len() - i,
    {
        proof {
            lemma_view_columns(blocks@[i as int].col_stats@, n as nat);
        }
        if !has_columns(&blocks[i].col_stats, n) {
            assert(!is_dense(metas[i as int].col_stats, width(metas)));
            return false;
        }
        i = i + 1;
    }
    true
}

/// The sum of the row counts, or of the byte sizes, of the blocks; `None`
/// where it does not fit 64 bits.
fn sum_blocks(blocks: &Vec<BlockMeta>, rows: bool) -> (r: Option<u64>)
    ensures
        ({
            let counts = if rows {
                row_counts(block_metas_view(blocks@))
            } else {
                byte_sizes(block_metas_view(blocks@))
            };
            match r {
                Some(sum) => sum == total(counts),
                None => total(counts) > u64::MAX,
            }
        }),
{
    let ghost counts = if rows {
        row_counts(block_metas_view(blocks@))
    } else {
        byte_sizes(block_metas_view(blocks@))
    };
    let mut sum: u64 = 0;
    let mut i: usize = 0;
    assert(counts.take(0) =~= Seq::<nat>::empty());
    while i < blocks.len()
        invariant
            i <= blocks.len(),
            counts.len() == blocks.len(),
            counts == if rows {
                row_counts(block_metas_view(blocks@))
            } else {
                byte_sizes(block_metas_view(blocks@))
            },
            sum == total(counts.take(i as int)),
        decreases blocks.len() - i,
    {
        proof {
            lemma_total_step(counts, i as int);
            lemma_total_prefix(counts, i + 1);
        }
        let count = if rows {
            blocks[i].row_count
        } else {
            blocks[i].byte_size
        };
        assert(count == counts[i as int]);
        match sum.checked_add(count) {
            Some(s) => {
                sum = s;
            },
            None => {
                return None;
            },
        }
        i = i + 1;
    }
    assert(counts.take(blocks.len() as int) =~= counts);
    Some(sum)
}

/// The statistics of column `c` over all the blocks; `None` where a sum does
/// not fit 64 bits.
fn reduce_column(blocks: &Vec<BlockMeta>, c: usize) -> (r: Option<ColStats>)
    requires
        uniform(block_metas_view(blocks@)),
        c < width(block_metas_view(blocks@)),
    ensures
        ({
            let metas = block_metas_view(blocks@);
            match r {
                Some(stats) => total(null_counts(metas, c)) <= u64::MAX && total(
                    memory_sizes(metas, c),
                ) <= u64::MAX && stats@ == column_summary(metas, c),
                None => total(null_counts(metas, c)) > u64::MAX || total(memory_sizes(metas, c))
                    > u64::MAX,
            }
        }),
{
    let ghost metas = block_metas_view(blocks@);
    let ghost nulls_of = null_counts(metas, c);
    let ghost sizes_of = memory_sizes(metas, c);
    let ghost mins_of = minima(metas, c);
    let ghost maxes_of = maxima(metas, c);
    let mut nulls: u64 = 0;
    let mut size: u64 = 0;
    let mut min = DataValue::Null;
    let mut max = DataValue::Null;
    let mut i: usize = 0;
    proof {
        assert(nulls_of.take(0) =~= Seq::<nat>::empty());
        assert(sizes_of.take(0) =~= Seq::<nat>::empty());
        assert(mins_of.take(0) =~= Seq::<Scalar>::empty());
        assert(maxes_of.take(0) =~= Seq::<Scalar>::empty());
    }
    while i < blocks.len()
        invariant
            i <= blocks.len(),
            metas == block_metas_view(blocks@),
            uniform(metas),
            c < width(metas),
            nulls_of == null_counts(metas, c),
            sizes_of == memory_sizes(metas, c),
            mins_of == minima(metas, c),
            maxes_of == maxima(metas, c),
            nulls == total(nulls_of.take(i as int)),
            size == total(sizes_of.take(i as int)),
            min@ == least(mins_of.take(i as int)),
            max@ == greatest(maxes_of.take(i as int)),
        decreases blocks.len() - i,
    {
        proof {
            lemma_total_step(nulls_of, i as int);
            lemma_total_prefix(nulls_of, i + 1);
            lemma_total_step(sizes_of, i as int);
            lemma_total_prefix(sizes_of, i + 1);
            assert(mins_of.take(i + 1).drop_last() =~= mins_of.take(i as int));
            assert(maxes_of.take(i + 1).drop_last() =~= maxes_of.take(i as int));
            assert(is_dense(metas[i as int].col_stats, width(metas)));
            assert(metas[i as int].col_stats.contains_key(c));
            assert(blocks@[i as int].col_stats@.contains_key(c));
        }
        let stats = match blocks[i].col_stats.get(&c) {
            Some(stats) => stats,
            None => {
                return None;
            },
        };
        assert(stats@ == metas[i as int].col_stats[c]);
        match nulls.checked_add(stats.null_count) {
            Some(s) => {
                nulls = s;
            },
            None => {
                return None;
            },
        }
        match size.checked_add(stats.in_memory_size) {
            Some(s) => {
                size = s;
            },
            None => {
                return None;
            },
        }
        min = min.lesser(&stats.min);
        max = max.greater(&stats.max);
        i = i + 1;
    }
    proof {
        assert(nulls_of.take(blocks.len() as int) =~= nulls_of);
        assert(sizes_of.take(blocks.len() as int) =~= sizes_of);
        assert(mins_of.take(blocks.len() as int) =~= mins_of);
        assert(maxes_of.take(blocks.len() as int) =~= maxes_of);
    }
    Some(ColStats { min, max, null_count: nulls, in_memory_size: size })
}

/// The aggregated statistics of the blocks.
///
/// Fails with `BadArguments` where the blocks differ in the columns that
/// they have statistics for, and otherwise with `Internal` where a sum does
/// not fit 64 bits.
pub fn reduce_block_metas(blocks: &Vec<BlockMeta>) -> (r: Result<Stats, ErrorCode>)
    ensures
        ({
            let metas = block_metas_view(blocks@);
            if !uniform(metas) {
                r is Err && r->Err_0.kind == ErrorKind::BadArguments
            } else if !sums_fit(metas) {
                r is Err && r->Err_0.kind == ErrorKind::Internal
            } else {
                r is Ok && is_summary_of(r->Ok_0@, metas)
            }
        }),
{
    let ghost metas = block_metas_view(blocks@);
    if !is_uniform(blocks) {
        return Err(not_uniform());
    }
    let row_count = match sum_blocks(blocks, true) {
        Some(sum) => sum,
        None => {
            return Err(sum_overflow());
        },
    };
    let byte_size = match sum_blocks(blocks, false) {
        Some(sum) => sum,
        None => {
            return Err(sum_overflow());
        },
    };
    let columns = first_width(blocks);
    let mut col_stats: ColumnsStats = HashMap::new();
    let mut c: usize = 0;
    while c < columns
        invariant
            c <= columns,
            columns == width(metas),
            metas == block_metas_view(blocks@),
            uniform(metas),
            forall|k: ColumnId| #[trigger] col_stats@.contains_key(k) <==> k < c,
            forall|j: ColumnId| j < c ==> total(#[trigger] null_counts(metas, j)) <= u64::MAX,
            forall|j: ColumnId| j < c ==> total(#[trigger] memory_sizes(metas, j)) <= u64::MAX,
            forall|j: ColumnId| j < c ==> (#[trigger] col_stats@[j])@ == column_summary(metas, j),
        decreases columns - c,
    {
        match reduce_column(blocks, c) {
            Some(stats) => {
                col_stats.insert(c, stats);
            },
            None => {
                assert(!sums_fit(metas)) by {
                    if sums_fit(metas) {
                        assert(total(null_counts(metas, c)) <= u64::MAX);
                        assert(total(memory_sizes(metas, c)) <= u64::MAX);
                    }
                }
                return Err(sum_overflow());
            },
        }
        c = c + 1;
    }
    let summary = Stats { row_count, byte_size, col_stats };
    proof {
        lemma_view_columns(summary.col_stats@, columns as nat);
    }
    Ok(summary)
}

impl SegmentInfo {
    /// The summary of a segment aggregates its blocks.
    pub open spec fn wf(&self) -> bool {
        is_summary_of(self@.summary, self@.blocks)
    }

    /// The segment of the given blocks, in their order, with its summary.
    ///
    /// Fails with `BadArguments` where the blocks differ in the columns
    /// that they have statistics for, and otherwise with `Internal` where a
    /// sum does not fit 64 bits.
    pub fn try_create(blocks: Vec<BlockMeta>) -> (r: Result<SegmentInfo, ErrorCode>)
        ensures
            ({
                let metas = block_metas_view(blocks@);
                if !uniform(metas) {
                    r is Err && r->Err_0.kind == ErrorKind::BadArguments
                } else if !sums_fit(metas) {
                    r is Err && r->Err_0.kind == ErrorKind::Internal
                } else {
                    r is Ok && r->Ok_0.wf() && r->Ok_0.blocks == blocks
                }
            }),
    {
        match reduce_block_metas(&blocks) {
            Ok(summary) => Ok(SegmentInfo { blocks, summary }),
            Err(e) => Err(e),
        }
    }

    /// The blocks of the segment, in the order in which they were appended.
    pub fn blocks(&self) -> (b: &Vec<BlockMeta>)
        ensures
            b == &self.blocks,
    {
        &self.blocks
    }

    /// The aggregated statistics.
    pub fn summary(&self) -> (s: &Stats)
        ensures
            s == &self.summary,
    {
        &self.summary
    }
}

/// In a well-formed segment the summary's row count is the sum of the row
/// counts of its blocks, and its byte size the sum of their byte sizes.
pub proof fn lemma_segment_summary_sums(segment: SegmentInfo)
    requires
        segment.wf(),
    ensures
        segment.summary.row_count == total(row_counts(segment@.blocks)),
        segment.summary.byte_size == total(byte_sizes(segment@.blocks)),
{
}

} // verus!
