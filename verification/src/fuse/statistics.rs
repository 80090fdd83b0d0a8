//! Statistics of the columns of a block.

use std::collections::HashMap;
use vstd::prelude::*;
use crate::datablocks::data_block::DataBlock;
use crate::datavalues::data_array::count_missing;
use crate::datavalues::data_array::DataArray;
use crate::datavalues::data_array::lemma_count_missing_bound;
use crate::datavalues::data_column::DataColumn;
use crate::datavalues::data_type::DataType;
use crate::datavalues::data_value::DataValue;
use crate::datavalues::data_value::missing_of;
use crate::datavalues::data_value::Scalar;
use crate::datavalues::value_order::lemma_value_le_reflexive;
use crate::datavalues::value_order::lemma_value_le_total;
use crate::datavalues::value_order::lemma_value_le_transitive;
use crate::datavalues::value_order::value_le;
use crate::errors::ErrorCode;
use crate::errors::ErrorKind;
use crate::fuse::meta::col_stats_view;
use crate::fuse::meta::ColStats;
use crate::fuse::meta::ColStatsSpec;
use crate::fuse::meta::ColumnId;
use crate::fuse::meta::ColumnsStats;
use crate::fuse::meta::is_dense;

verus! {

/// The bytes that one value takes in memory: the width of its type, and for
/// a string the number of its bytes.
pub open spec fn value_size(v: Scalar) -> nat {
    match v {
        Scalar::Null => 0,
        Scalar::Boolean(_) => 1,
        Scalar::Int8(_) => 1,
        Scalar::Int16(_) => 2,
        Scalar::Int32(_) => 4,
        Scalar::Int64(_) => 8,
        Scalar::UInt8(_) => 1,
        Scalar::UInt16(_) => 2,
        Scalar::UInt32(_) => 4,
        Scalar::UInt64(_) => 8,
        Scalar::Float32(_) => 4,
        Scalar::Float64(_) => 8,
        Scalar::String(Some(bytes)) => bytes.len(),
        Scalar::String(None) => 0,
    }
}

/// The bytes that the rows take in memory.
pub open spec fn total_size(rows: Seq<Scalar>) -> nat
    decreases rows.len(),
{
    if rows.len() == 0 {
        0
    } else {
        total_size(rows.drop_last()) + value_size(rows.last())
    }
}

/// `m` is one of the present values of `rows`.
pub open spec fn attained(m: Scalar, rows: Seq<Scalar>) -> bool {
    !m.is_missing() && exists|i: int| 0 <= i < rows.len() && #[trigger] rows[i] == m
}

/// Every present value of `rows` lies between `min` and `max`.
pub open spec fn brackets(min: Scalar, max: Scalar, rows: Seq<Scalar>) -> bool {
    forall|i: int|
        0 <= i < rows.len() && !(#[trigger] rows[i]).is_missing() ==> value_le(min, rows[i])
            && value_le(rows[i], max)
}

/// `stats` are the statistics of a column of type `data_type` with the given
/// rows.
pub open spec fn is_stats_of(stats: ColStatsSpec, rows: Seq<Scalar>, data_type: DataType) -> bool {
    &&& stats.null_count == count_missing(rows)
    &&& stats.in_memory_size == total_size(rows)
    &&& if count_missing(rows) == rows.len() {
        stats.min == missing_of(data_type) && stats.max == missing_of(data_type)
    } else {
        attained(stats.min, rows) && attained(stats.max, rows) && brackets(
            stats.min,
            stats.max,
            rows,
        )
    }
}

/// The statistics of a column count no more nulls than the column has rows,
/// and their minimum and maximum bracket every present value.
pub proof fn lemma_stats_bounds(stats: ColStatsSpec, rows: Seq<Scalar>, data_type: DataType)
    requires
        is_stats_of(stats, rows, data_type),
    ensures
        stats.null_count <= rows.len(),
        forall|i: int|
            0 <= i < rows.len() && !(#[trigger] rows[i]).is_missing() ==> value_le(
                stats.min,
                rows[i],
            ) && value_le(rows[i], stats.max),
{
    lemma_count_missing_bound(rows);
    if count_missing(rows) == rows.len() {
        lemma_all_missing(rows);
    }
}

/// Where as many rows are missing as there are rows, every row is missing.
pub proof fn lemma_all_missing(rows: Seq<Scalar>)
    requires
        count_missing(rows) == rows.len(),
    ensures
        forall|i: int| 0 <= i < rows.len() ==> (#[trigger] rows[i]).is_missing(),
    decreases rows.len(),
{
    if rows.len() > 0 {
        lemma_count_missing_bound(rows.drop_last());
        lemma_all_missing(rows.drop_last());
        assert forall|i: int| 0 <= i < rows.len() implies (#[trigger] rows[i]).is_missing() by {
            if i < rows.len() - 1 {
                assert(rows.drop_last()[i] == rows[i]);
            }
        }
    }
}

/// Where a row is present, fewer rows are missing than there are rows.
pub proof fn lemma_some_present(rows: Seq<Scalar>, i: int)
    requires
        0 <= i < rows.len(),
        !rows[i].is_missing(),
    ensures
        count_missing(rows) < rows.len(),
    decreases rows.len(),
{
    lemma_count_missing_bound(rows.drop_last());
    if i < rows.len() - 1 {
        assert(rows.drop_last()[i] == rows[i]);
        lemma_some_present(rows.drop_last(), i);
    }
}

/// The rows of a constant column: how many are missing and what they take.
pub proof fn lemma_constant_rows(v: Scalar, n: nat)
    ensures
        count_missing(Seq::new(n, |i: int| v)) == if v.is_missing() {
            n
        } else {
            0
        },
        total_size(Seq::new(n, |i: int| v)) == n * value_size(v),
    decreases n,
{
    let rows = Seq::new(n, |i: int| v);
    if n > 0 {
        lemma_constant_rows(v, (n - 1) as nat);
        assert(rows.drop_last() =~= Seq::new((n - 1) as nat, |i: int| v));
        assert(n * value_size(v) == (n - 1) * value_size(v) + value_size(v)) by (nonlinear_arith);
    }
}

/// A longer prefix of the rows takes no less memory.
pub proof fn lemma_total_size_prefix(rows: Seq<Scalar>, k: int)
    requires
        0 <= k <= rows.len(),
    ensures
        total_size(rows.take(k)) <= total_size(rows),
    decreases rows.len(),
{
    if k == rows.len() {
        assert(rows.take(k) =~= rows);
    } else {
        lemma_total_size_prefix(rows.drop_last(), k);
        assert(rows.drop_last().take(k) =~= rows.take(k));
    }
}

impl DataValue {
    /// The bytes that the value takes in memory.
    pub fn memory_size(&self) -> (n: usize)
        ensures
            n == value_size(self@),
    {
        match self {
            DataValue::Null => 0,
            DataValue::Boolean(_) => 1,
            DataValue::Int8(_) => 1,
            DataValue::Int16(_) => 2,
            DataValue::Int32(_) => 4,
            DataValue::Int64(_) => 8,
            DataValue::UInt8(_) => 1,
            DataValue::UInt16(_) => 2,
            DataValue::UInt32(_) => 4,
            DataValue::UInt64(_) => 8,
            DataValue::Float32(_) => 4,
            DataValue::Float64(_) => 8,
            DataValue::String(Some(bytes)) => bytes.len(),
            DataValue::String(None) => 0,
        }
    }
}

/// The failure of statistics whose byte count does not fit 64 bits.
fn size_overflow() -> (e: ErrorCode)
    ensures
        e.kind == ErrorKind::Internal,
{
    ErrorCode::create(
        ErrorKind::Internal,
        String::from_str("the in-memory size of a column exceeds 64 bits"),
    )
}

/// The statistics of an array. Fails with `Internal` exactly when the rows
/// take more bytes than 64 bits can count.
pub fn array_stats(array: &DataArray) -> (r: Result<ColStats, ErrorCode>)
    requires
        array.wf(),
    ensures
        total_size(array@) <= u64::MAX ==> r is Ok && is_stats_of(
            r->Ok_0@,
            array@,
            array.data_type,
        ),
        total_size(array@) > u64::MAX ==> r is Err && r->Err_0.kind == ErrorKind::Internal,
{
    let ghost rows = array@;
    let n = array.len();
    let mut nulls: u64 = 0;
    let mut size: u64 = 0;
    let mut min_at: Option<usize> = None;
    let mut max_at: Option<usize> = None;
    let mut i: usize = 0;
    assert(rows.take(0) =~= Seq::<Scalar>::empty());
    while i < n
        invariant
            array.wf(),
            rows == array@,
            n == rows.len(),
            i <= n,
            nulls == count_missing(rows.take(i as int)),
            nulls <= i,
            size == total_size(rows.take(i as int)),
            min_at is Some == max_at is Some,
            min_at is None ==> nulls == i,
            min_at is Some ==> min_at->0 < i && max_at->0 < i && !rows[min_at->0 as int].is_missing()
                && !rows[max_at->0 as int].is_missing() && brackets(
                rows[min_at->0 as int],
                rows[max_at->0 as int],
                rows.take(i as int),
            ),
        decreases n - i,
    {
        let ghost before = rows.take(i as int);
        let ghost after = rows.take(i + 1);
        proof {
            assert(after.drop_last() =~= before);
            assert(after.last() == rows[i as int]);
            assert(array.values@[i as int]@ == rows[i as int]);
            lemma_total_size_prefix(rows, i + 1);
        }
        let value = &array.values[i];
        let width = value.memory_size();
        if width as u64 > u64::MAX - size {
            return Err(size_overflow());
        }
        size = size + width as u64;
        if value.is_missing() {
            nulls = nulls + 1;
            proof {
                if min_at is Some {
                    assert forall|j: int| 0 <= j < after.len() && !(#[trigger] after[j]).is_missing() implies value_le(
                        rows[min_at->0 as int],
                        after[j],
                    ) && value_le(after[j], rows[max_at->0 as int]) by {
                        assert(before[j] == after[j]);
                    }
                }
            }
        } else {
            match (min_at, max_at) {
                (Some(lo), Some(hi)) => {
                    let ghost low = rows[lo as int];
                    let ghost high = rows[hi as int];
                    let ghost cur = rows[i as int];
                    proof {
                        assert(array.values@[lo as int]@ == low);
                        assert(array.values@[hi as int]@ == high);
                        assert(low.data_type() == cur.data_type());
                        assert(high.data_type() == cur.data_type());
                        lemma_value_le_total(cur, low);
                        lemma_value_le_total(cur, high);
                        lemma_value_le_reflexive(cur);
                        lemma_value_le_reflexive(low);
                        lemma_value_le_reflexive(high);
                    }
                    let below = value.le(&array.values[lo]);
                    let above = array.values[hi].le(value);
                    if below {
                        min_at = Some(i);
                    }
                    if above {
                        max_at = Some(i);
                    }
                    proof {
                        let new_low = rows[min_at->0 as int];
                        let new_high = rows[max_at->0 as int];
                        assert(value_le(new_low, low));
                        assert(value_le(high, new_high));
                        assert(value_le(new_low, cur));
                        assert(value_le(cur, new_high));
                        assert forall|j: int|
                            0 <= j < after.len() && !(#[trigger] after[j]).is_missing() implies value_le(
                            new_low,
                            after[j],
                        ) && value_le(after[j], new_high) by {
                            if j < i {
                                assert(before[j] == after[j]);
                                lemma_value_le_transitive(new_low, low, after[j]);
                                lemma_value_le_transitive(after[j], high, new_high);
                            }
                        }
                    }
                },
                _ => {
                    min_at = Some(i);
                    max_at = Some(i);
                    proof {
                        lemma_value_le_reflexive(rows[i as int]);
                        lemma_all_missing(before);
                        assert forall|j: int|
                            0 <= j < after.len() && !(#[trigger] after[j]).is_missing() implies value_le(
                            rows[i as int],
                            after[j],
                        ) && value_le(after[j], rows[i as int]) by {
                            if j < i {
                                assert(before[j] == after[j]);
                            }
                        }
                    }
                },
            }
        }
        i = i + 1;
    }
    proof {
        assert(rows.take(n as int) =~= rows);
    }
    let stats = match (min_at, max_at) {
        (Some(lo), Some(hi)) => {
            proof {
                lemma_some_present(rows, lo as int);
                assert(array.values@[lo as int]@ == rows[lo as int]);
                assert(array.values@[hi as int]@ == rows[hi as int]);
            }
            ColStats {
                min: array.values[lo].clone(),
                max: array.values[hi].clone(),
                null_count: nulls,
                in_memory_size: size,
            }
        },
        _ => ColStats {
            min: DataValue::missing(array.data_type()),
            max: DataValue::missing(array.data_type()),
            null_count: nulls,
            in_memory_size: size,
        },
    };
    Ok(stats)
}

/// The statistics of a column, in either of its forms. Fails with `Internal`
/// exactly when the rows take more bytes than 64 bits can count.
pub fn column_stats(column: &DataColumn) -> (r: Result<ColStats, ErrorCode>)
    requires
        column.wf(),
    ensures
        total_size(column@) <= u64::MAX ==> r is Ok && is_stats_of(
            r->Ok_0@,
            column@,
            column.data_type_spec(),
        ),
        total_size(column@) > u64::MAX ==> r is Err && r->Err_0.kind == ErrorKind::Internal,
{
    match column {
        DataColumn::Array(array) => array_stats(array),
        DataColumn::Constant(value, rows) => {
            let width = value.memory_size();
            proof {
                lemma_constant_rows(value@, *rows as nat);
            }
            let size = (*rows as u64).checked_mul(width as u64);
            match size {
                None => Err(size_overflow()),
                Some(in_memory_size) => {
                    if value.is_missing() || *rows == 0 {
                        proof {
                            if *rows == 0 {
                                assert(column@.len() == 0);
                            }
                        }
                        Ok(
                            ColStats {
                                min: DataValue::missing(value.data_type()),
                                max: DataValue::missing(value.data_type()),
                                null_count: if value.is_missing() {
                                    *rows as u64
                                } else {
                                    0
                                },
                                in_memory_size,
                            },
                        )
                    } else {
                        proof {
                            lemma_value_le_reflexive(value@);
                            assert(column@[0] == value@);
                        }
                        Ok(
                            ColStats {
                                min: value.clone(),
                                max: value.clone(),
                                null_count: 0,
                                in_memory_size,
                            },
                        )
                    }
                },
            }
        },
    }
}

/// All columns of the block take no more bytes than 64 bits can count.
pub open spec fn sizes_fit(columns: Seq<Seq<Scalar>>) -> bool {
    forall|c: int| 0 <= c < columns.len() ==> total_size(#[trigger] columns[c]) <= u64::MAX
}

/// `stats` holds, for each column of the block, the statistics of that
/// column, under its column id, and nothing else.
pub open spec fn is_block_stats_of(stats: Map<ColumnId, ColStatsSpec>, block: &DataBlock) -> bool {
    &&& is_dense(stats, block@.columns.len())
    &&& forall|c: ColumnId|
        c < block@.columns.len() ==> is_stats_of(
            #[trigger] stats[c],
            block@.columns[c as int],
            block@.schema[c as int].data_type,
        )
}

/// The statistics of a block count for no column more nulls than the block
/// has rows, and the minimum and maximum of each column bracket every
/// present value of the column.
pub proof fn lemma_block_stats_bounds(
    stats: Map<ColumnId, ColStatsSpec>,
    block: &DataBlock,
    c: ColumnId,
)
    requires
        block.wf(),
        is_block_stats_of(stats, block),
        c < block@.columns.len(),
    ensures
        stats[c].null_count <= block.rows(),
        brackets(stats[c].min, stats[c].max, block@.columns[c as int]),
{
    block.lemma_column_rows(c as int);
    lemma_stats_bounds(stats[c], block@.columns[c as int], block@.schema[c as int].data_type);
}

/// The statistics of every column of a block, by column id. Fails with
/// `Internal` exactly when some column takes more bytes than 64 bits can
/// count.
pub fn block_stats(block: &DataBlock) -> (r: Result<ColumnsStats, ErrorCode>)
    requires
        block.wf(),
    ensures
        sizes_fit(block@.columns) ==> r is Ok && is_block_stats_of(
            col_stats_view(r->Ok_0@),
            block,
        ),
        !sizes_fit(block@.columns) ==> r is Err && r->Err_0.kind == ErrorKind::Internal,
{
    let mut stats: ColumnsStats = HashMap::new();
    let mut c: usize = 0;
    while c < block.num_columns()
        invariant
            block.wf(),
            c <= block@.columns.len(),
            forall|k: ColumnId| #[trigger] stats@.contains_key(k) <==> k < c,
            forall|j: int| 0 <= j < c ==> total_size(#[trigger] block@.columns[j]) <= u64::MAX,
            forall|k: ColumnId|
                k < c ==> is_stats_of(
                    (#[trigger] stats@[k])@,
                    block@.columns[k as int],
                    block@.schema[k as int].data_type,
                ),
        decreases block@.columns.len() - c,
    {
        let column = block.column(c);
        assert(column.wf());
        assert(column@ == block@.columns[c as int]);
        assert(column.data_type_spec() == block@.schema[c as int].data_type);
        match column_stats(column) {
            Ok(s) => {
                stats.insert(c, s);
            },
            Err(e) => {
                return Err(e);
            },
        }
        c = c + 1;
    }
    Ok(stats)
}

} // verus!
