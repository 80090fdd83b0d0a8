//! Snapshots and the chain that they form.
//!
//! The content of a table at a point in time is a snapshot: the list of its
//! segments, with their aggregated statistics. A commit makes the successor
//! of the current snapshot from the log entries of finished appends. Each
//! snapshot names its predecessor, so the snapshots of a table form a chain
//! from the current one back to the first.

use std::collections::HashMap;
use vstd::prelude::*;
use crate::datavalues::data_schema::DataSchema;
use crate::datavalues::data_schema::FieldSpec;
use crate::datavalues::data_value::DataValue;
use crate::datavalues::data_value::missing_of;
use crate::errors::ErrorCode;
use crate::errors::ErrorKind;
use crate::fuse::location_gen::snapshot_location;
use crate::fuse::location_gen::snapshot_location_spec;
use crate::fuse::meta::AppendOperationLogEntry;
use crate::fuse::meta::ColStats;
use crate::fuse::meta::ColStatsSpec;
use crate::fuse::meta::ColumnId;
use crate::fuse::meta::ColumnsStats;
use crate::fuse::meta::has_columns;
use crate::fuse::meta::is_dense;
use crate::fuse::meta::lemma_dense_len;
use crate::fuse::meta::lemma_view_columns;
use crate::fuse::meta::LogEntrySpec;
use crate::fuse::meta::Stats;
use crate::fuse::meta::StatsSpec;
use crate::fuse::summary::greater;
use crate::fuse::summary::lesser;
use crate::sequences::total;

verus! {

/// The content of a table at a point in time.
#[derive(Debug, PartialEq, Eq)]
pub struct TableSnapshot {
    /// Where the snapshot is stored.
    pub location: String,
    /// Where the snapshot before this one is stored, if there is one.
    pub prev_snapshot_id: Option<String>,
    /// The locations of the segments, in the order in which they were
    /// committed.
    pub segments: Vec<String>,
    pub schema: DataSchema,
    pub summary: Stats,
    pub timestamp: u64,
}

/// The mathematical content of a `TableSnapshot`.
pub struct SnapshotSpec {
    pub location: Seq<char>,
    pub prev_snapshot_id: Option<Seq<char>>,
    pub segments: Seq<Seq<char>>,
    pub schema: Seq<FieldSpec>,
    pub summary: StatsSpec,
    pub timestamp: u64,
}

/// The texts of a list of strings, in their order.
pub open spec fn texts(strings: Seq<String>) -> Seq<Seq<char>> {
    Seq::new(strings.len(), |i: int| strings[i]@)
}

impl View for TableSnapshot {
    type V = SnapshotSpec;

    open spec fn view(&self) -> SnapshotSpec {
        SnapshotSpec {
            location: self.location@,
            prev_snapshot_id: match self.prev_snapshot_id {
                Some(s) => Some(s@),
                None => None,
            },
            segments: texts(self.segments@),
            schema: self.schema@,
            summary: self.summary@,
            timestamp: self.timestamp,
        }
    }
}

/// The statistics of a table of the given schema that holds no rows: for
/// each field, under its place in the schema as column id, no value and
/// nothing counted.
pub open spec fn empty_stats(schema: Seq<FieldSpec>) -> StatsSpec {
    StatsSpec {
        row_count: 0,
        byte_size: 0,
        col_stats: Map::new(
            |c: ColumnId| c < schema.len(),
            |c: ColumnId|
                ColStatsSpec {
                    min: missing_of(schema[c as int].data_type),
                    max: missing_of(schema[c as int].data_type),
                    null_count: 0,
                    in_memory_size: 0,
                },
        ),
    }
}

/// The number of columns that the statistics have entries for.
pub open spec fn columns_of(stats: StatsSpec) -> nat {
    stats.col_stats.dom().len()
}

/// Both statistics have entries for the same columns: for each of the
/// first column ids, as many as the first has entries, and for no other.
pub open spec fn same_columns(a: StatsSpec, b: StatsSpec) -> bool {
    is_dense(a.col_stats, columns_of(a)) && is_dense(b.col_stats, columns_of(a))
}

/// The sums of two statistics fit 64 bits.
pub open spec fn merge_fits(a: StatsSpec, b: StatsSpec) -> bool {
    &&& a.row_count + b.row_count <= u64::MAX
    &&& a.byte_size + b.byte_size <= u64::MAX
    &&& forall|c: ColumnId|
        c < columns_of(a) ==> (#[trigger] a.col_stats[c]).null_count + b.col_stats[c].null_count
            <= u64::MAX
    &&& forall|c: ColumnId|
        c < columns_of(a) ==> (#[trigger] a.col_stats[c]).in_memory_size
            + b.col_stats[c].in_memory_size <= u64::MAX
}

/// The statistics of column `c` over what `a` and `b` describe.
pub open spec fn merged_column(a: ColStatsSpec, b: ColStatsSpec) -> ColStatsSpec {
    ColStatsSpec {
        min: lesser(a.min, b.min),
        max: greater(a.max, b.max),
        null_count: (a.null_count + b.null_count) as u64,
        in_memory_size: (a.in_memory_size + b.in_memory_size) as u64,
    }
}

/// The statistics of what `a` and `b` describe together.
pub open spec fn merged(a: StatsSpec, b: StatsSpec) -> StatsSpec {
    StatsSpec {
        row_count: (a.row_count + b.row_count) as u64,
        byte_size: (a.byte_size + b.byte_size) as u64,
        col_stats: Map::new(
            |c: ColumnId| c < columns_of(a),
            |c: ColumnId| merged_column(a.col_stats[c], b.col_stats[c]),
        ),
    }
}

/// Two statistics merged: refused with `BadArguments` where they differ in
/// their columns, and otherwise with `Internal` where a sum does not fit
/// 64 bits.
pub open spec fn merge_spec(a: StatsSpec, b: StatsSpec) -> Result<StatsSpec, ErrorKind> {
    if !same_columns(a, b) {
        Err(ErrorKind::BadArguments)
    } else if !merge_fits(a, b) {
        Err(ErrorKind::Internal)
    } else {
        Ok(merged(a, b))
    }
}

/// `base` merged with each of `adds` in turn; the first refusal ends it.
pub open spec fn merge_all(base: StatsSpec, adds: Seq<StatsSpec>) -> Result<StatsSpec, ErrorKind>
    decreases adds.len(),
{
    if adds.len() == 0 {
        Ok(base)
    } else {
        match merge_all(base, adds.drop_last()) {
            Ok(s) => merge_spec(s, adds.last()),
            Err(k) => Err(k),
        }
    }
}

/// The summaries of the segments of the entries, in their order.
pub open spec fn entry_summaries(entries: Seq<LogEntrySpec>) -> Seq<StatsSpec> {
    Seq::new(entries.len(), |i: int| entries[i].segment_info.summary)
}

/// The locations of the segments of the entries, in their order.
pub open spec fn entry_locations(entries: Seq<LogEntrySpec>) -> Seq<Seq<char>> {
    Seq::new(entries.len(), |i: int| entries[i].segment_location)
}

/// The views of the entries, in their order.
pub open spec fn entries_view(entries: Seq<AppendOperationLogEntry>) -> Seq<LogEntrySpec> {
    Seq::new(entries.len(), |i: int| entries[i]@)
}

/// The row counts of a list of statistics.
pub open spec fn stats_rows(adds: Seq<StatsSpec>) -> Seq<nat> {
    Seq::new(adds.len(), |i: int| adds[i].row_count as nat)
}

/// The byte sizes of a list of statistics.
pub open spec fn stats_bytes(adds: Seq<StatsSpec>) -> Seq<nat> {
    Seq::new(adds.len(), |i: int| adds[i].byte_size as nat)
}

/// Where statistics merge, the row count of the result is the sum of the
/// row counts that went in, and so for the byte size.
pub proof fn lemma_merge_all_sums(base: StatsSpec, adds: Seq<StatsSpec>)
    requires
        merge_all(base, adds) is Ok,
    ensures
        merge_all(base, adds)->Ok_0.row_count == base.row_count + total(stats_rows(adds)),
        merge_all(base, adds)->Ok_0.byte_size == base.byte_size + total(stats_bytes(adds)),
    decreases adds.len(),
{
    if adds.len() > 0 {
        lemma_merge_all_sums(base, adds.drop_last());
        assert(stats_rows(adds).drop_last() =~= stats_rows(adds.drop_last()));
        assert(stats_bytes(adds).drop_last() =~= stats_bytes(adds.drop_last()));
    }
}

/// Where statistics merge, the result has entries for the columns that the
/// first of them has entries for.
pub proof fn lemma_merge_all_columns(base: StatsSpec, adds: Seq<StatsSpec>, n: nat)
    requires
        merge_all(base, adds) is Ok,
        is_dense(base.col_stats, n),
        n <= usize::MAX,
    ensures
        is_dense(merge_all(base, adds)->Ok_0.col_stats, n),
    decreases adds.len(),
{
    if adds.len() > 0 {
        let front = merge_all(base, adds.drop_last())->Ok_0;
        lemma_merge_all_columns(base, adds.drop_last(), n);
        lemma_dense_len(front.col_stats, n);
    }
}

/// The failure of a merge of statistics that differ in their columns.
fn width_mismatch() -> (e: ErrorCode)
    ensures
        e.kind == ErrorKind::BadArguments,
{
    ErrorCode::create(
        ErrorKind::BadArguments,
        String::from_str("the statistics differ in their columns"),
    )
}

/// The failure of a merge whose sums do not fit 64 bits.
fn merge_overflow() -> (e: ErrorCode)
    ensures
        e.kind == ErrorKind::Internal,
{
    ErrorCode::create(
        ErrorKind::Internal,
        String::from_str("the statistics of a snapshot exceed 64 bits"),
    )
}

impl Stats {
    /// The statistics of a table of the given schema that holds no rows.
    pub fn empty(schema: &DataSchema) -> (s: Stats)
        ensures
            s@ == empty_stats(schema@),
    {
        let mut col_stats: ColumnsStats = HashMap::new();
        let mut c: usize = 0;
        while c < schema.num_fields()
            invariant
                c <= schema@.len(),
                forall|k: ColumnId| #[trigger] col_stats@.contains_key(k) <==> k < c,
                forall|k: ColumnId|
                    k < c ==> (#[trigger] col_stats@[k])@ == empty_stats(schema@).col_stats[k],
            decreases schema@.len() - c,
        {
            let data_type = schema.field(c).data_type();
            col_stats.insert(
                c,
                ColStats {
                    min: DataValue::missing(data_type),
                    max: DataValue::missing(data_type),
                    null_count: 0,
                    in_memory_size: 0,
                },
            );
            c = c + 1;
        }
        let s = Stats { row_count: 0, byte_size: 0, col_stats };
        assert(s@.col_stats =~= empty_stats(schema@).col_stats);
        s
    }

    /// The statistics of what `self` and `other` describe together.
    pub fn merge(&self, other: &Stats) -> (r: Result<Stats, ErrorCode>)
        ensures
            match merge_spec(self@, other@) {
                Ok(s) => r is Ok && r->Ok_0@ == s,
                Err(k) => r is Err && r->Err_0.kind == k,
            },
    {
        let ghost a = self@;
        let ghost b = other@;
        let n = self.col_stats.len();
        proof {
            lemma_view_columns(self.col_stats@, n as nat);
            lemma_view_columns(other.col_stats@, n as nat);
        }
        if !has_columns(&self.col_stats, n) || !has_columns(&other.col_stats, n) {
            return Err(width_mismatch());
        }
        let row_count = match self.row_count.checked_add(other.row_count) {
            Some(sum) => sum,
            None => {
                return Err(merge_overflow());
            },
        };
        let byte_size = match self.byte_size.checked_add(other.byte_size) {
            Some(sum) => sum,
            None => {
                return Err(merge_overflow());
            },
        };
        let mut col_stats: ColumnsStats = HashMap::new();
        let mut c: usize = 0;
        while c < n
            invariant
                a == self@,
                b == other@,
                n == columns_of(a),
                is_dense(self.col_stats@, n as nat),
                is_dense(other.col_stats@, n as nat),
                c <= n,
                forall|k: ColumnId| #[trigger] col_stats@.contains_key(k) <==> k < c,
                forall|j: ColumnId|
                    j < c ==> (#[trigger] a.col_stats[j]).null_count + b.col_stats[j].null_count
                        <= u64::MAX,
                forall|j: ColumnId|
                    j < c ==> (#[trigger] a.col_stats[j]).in_memory_size
                        + b.col_stats[j].in_memory_size <= u64::MAX,
                forall|j: ColumnId|
                    j < c ==> (#[trigger] col_stats@[j])@ == merged_column(
                        a.col_stats[j],
                        b.col_stats[j],
                    ),
            decreases n - c,
        {
            assert(self.col_stats@.contains_key(c) && other.col_stats@.contains_key(c));
            let x = match self.col_stats.get(&c) {
                Some(x) => x,
                None => {
                    return Err(width_mismatch());
                },
            };
            let y = match other.col_stats.get(&c) {
                Some(y) => y,
                None => {
                    return Err(width_mismatch());
                },
            };
            assert(x@ == a.col_stats[c]);
            assert(y@ == b.col_stats[c]);
            let null_count = match x.null_count.checked_add(y.null_count) {
                Some(sum) => sum,
                None => {
                    return Err(merge_overflow());
                },
            };
            let in_memory_size = match x.in_memory_size.checked_add(y.in_memory_size) {
                Some(sum) => sum,
                None => {
                    return Err(merge_overflow());
                },
            };
            col_stats.insert(
                c,
                ColStats {
                    min: x.min.clone().lesser(&y.min),
                    max: x.max.clone().greater(&y.max),
                    null_count,
                    in_memory_size,
                },
            );
            c = c + 1;
        }
        let s = Stats { row_count, byte_size, col_stats };
        assert(s@.col_stats =~= merged(a, b).col_stats);
        Ok(s)
    }
}

/// The snapshots of a table, from the first to the current one.
#[derive(Debug)]
pub struct SnapshotChain {
    pub schema: DataSchema,
    pub snapshots: Vec<TableSnapshot>,
}

/// The views of the snapshots, in their order.
pub open spec fn snapshots_view(snapshots: Seq<TableSnapshot>) -> Seq<SnapshotSpec> {
    Seq::new(snapshots.len(), |i: int| snapshots[i]@)
}

/// Where the snapshot at place `i` is stored.
pub open spec fn location_at(snapshots: Seq<SnapshotSpec>, i: int) -> Seq<char> {
    snapshots[i].location
}

/// The time of the snapshot at place `i`.
pub open spec fn time_at(snapshots: Seq<SnapshotSpec>, i: int) -> u64 {
    snapshots[i].timestamp
}

/// The predecessor that the snapshot at place `i` names.
pub open spec fn prev_at(snapshots: Seq<SnapshotSpec>, i: int) -> Option<Seq<char>> {
    snapshots[i].prev_snapshot_id
}

/// The snapshots form a chain: the first has no predecessor, each other one
/// names the one before it, time moves forward along the chain, and no
/// location is used twice.
#[verifier::opaque]
pub open spec fn is_chain(snapshots: Seq<SnapshotSpec>) -> bool {
    &&& forall|i: int|
        0 <= i < snapshots.len() ==> #[trigger] prev_at(snapshots, i) == if i == 0 {
            None::<Seq<char>>
        } else {
            Some(location_at(snapshots, i - 1))
        }
    &&& forall|i: int, j: int|
        0 <= i < j < snapshots.len() ==> #[trigger] time_at(snapshots, i) < #[trigger] time_at(
            snapshots,
            j,
        )
    &&& forall|i: int, j: int|
        0 <= i < j < snapshots.len() ==> #[trigger] location_at(snapshots, i)
            != #[trigger] location_at(snapshots, j)
}

/// Every snapshot is of the given schema and has statistics for each of its
/// columns.
pub open spec fn all_of_schema(snapshots: Seq<SnapshotSpec>, schema: Seq<FieldSpec>) -> bool {
    forall|i: int|
        0 <= i < snapshots.len() ==> (#[trigger] snapshots[i]).schema == schema
            && is_dense(snapshots[i].summary.col_stats, schema.len())
}

/// The place in the chain of the snapshot that is stored at `location`.
pub open spec fn position_of(snapshots: Seq<SnapshotSpec>, location: Seq<char>) -> Option<int> {
    if exists|i: int| 0 <= i < snapshots.len() && (#[trigger] snapshots[i]).location == location {
        Some(choose|i: int| 0 <= i < snapshots.len() && (#[trigger] snapshots[i]).location == location)
    } else {
        None
    }
}

/// The number of steps from the snapshot at place `i` back to the first one,
/// where each step goes to the snapshot that is stored where the
/// predecessor is said to be. `None` where a step leads nowhere or the walk
/// does not end within `fuel` steps.
pub open spec fn steps_to_root(snapshots: Seq<SnapshotSpec>, i: int, fuel: nat) -> Option<nat>
    decreases fuel,
{
    if !(0 <= i < snapshots.len()) {
        None
    } else {
        match snapshots[i].prev_snapshot_id {
            None => Some(0),
            Some(location) => if fuel == 0 {
                None
            } else {
                match position_of(snapshots, location) {
                    None => None,
                    Some(j) => match steps_to_root(snapshots, j, (fuel - 1) as nat) {
                        None => None,
                        Some(n) => Some(n + 1),
                    },
                }
            },
        }
    }
}

/// In a chain a location is that of one snapshot only.
pub proof fn lemma_position_unique(snapshots: Seq<SnapshotSpec>, i: int)
    requires
        is_chain(snapshots),
        0 <= i < snapshots.len(),
    ensures
        position_of(snapshots, snapshots[i].location) == Some(i),
{
    reveal(is_chain);
    let j = position_of(snapshots, snapshots[i].location)->0;
    assert(0 <= j < snapshots.len() && snapshots[j].location == snapshots[i].location);
    if j < i {
        assert(location_at(snapshots, j) != location_at(snapshots, i));
    } else if i < j {
        assert(location_at(snapshots, i) != location_at(snapshots, j));
    }
}

/// Following the predecessor from any snapshot of a chain leads to a
/// snapshot with a strictly smaller timestamp.
pub proof fn lemma_predecessor_is_older(snapshots: Seq<SnapshotSpec>, i: int)
    requires
        is_chain(snapshots),
        0 <= i < snapshots.len(),
    ensures
        i == 0 ==> snapshots[i].prev_snapshot_id is None,
        i > 0 ==> snapshots[i].prev_snapshot_id is Some && position_of(
            snapshots,
            snapshots[i].prev_snapshot_id->0,
        ) == Some(i - 1) && snapshots[i - 1].timestamp < snapshots[i].timestamp,
{
    assert(prev_at(snapshots, i) == if i == 0 {
        None::<Seq<char>>
    } else {
        Some(location_at(snapshots, i - 1))
    }) by {
        reveal(is_chain);
    }
    if i > 0 {
        lemma_position_unique(snapshots, i - 1);
        assert(time_at(snapshots, i - 1) < time_at(snapshots, i)) by {
            reveal(is_chain);
        }
    }
}

/// Following the predecessors from any snapshot of a chain ends at the
/// first snapshot, after as many steps as the snapshot's place says: the
/// chain has no cycle.
pub proof fn lemma_chain_reaches_root(snapshots: Seq<SnapshotSpec>, i: int)
    requires
        is_chain(snapshots),
        0 <= i < snapshots.len(),
    ensures
        steps_to_root(snapshots, i, i as nat) == Some(i as nat),
    decreases i,
{
    lemma_predecessor_is_older(snapshots, i);
    if i > 0 {
        lemma_chain_reaches_root(snapshots, i - 1);
    }
}

impl SnapshotChain {
    /// The snapshots form a chain, and each is of the table's schema with
    /// statistics for each of its columns.
    pub open spec fn wf(&self) -> bool {
        &&& is_chain(snapshots_view(self.snapshots@))
        &&& all_of_schema(snapshots_view(self.snapshots@), self.schema@)
    }

    /// The chain of a table that holds nothing yet.
    pub fn new(schema: DataSchema) -> (chain: SnapshotChain)
        ensures
            chain.wf(),
            chain.schema == schema,
            chain.snapshots@.len() == 0,
    {
        proof {
            reveal(is_chain);
        }
        SnapshotChain { schema, snapshots: Vec::new() }
    }

    /// The current snapshot; none while the table is empty.
    pub fn current(&self) -> (s: Option<&TableSnapshot>)
        ensures
            self.snapshots@.len() == 0 ==> s is None,
            self.snapshots@.len() > 0 ==> s is Some && *s->0 == self.snapshots@.last(),
    {
        if self.snapshots.len() == 0 {
            None
        } else {
            Some(&self.snapshots[self.snapshots.len() - 1])
        }
    }

    /// The number of snapshots.
    pub fn len(&self) -> (n: usize)
        ensures
            n == self.snapshots@.len(),
    {
        self.snapshots.len()
    }

    /// The place of the snapshot that is stored at `location`.
    pub fn find(&self, location: &str) -> (r: Option<usize>)
        ensures
            r is Some ==> r->0 < self.snapshots@.len() && self.snapshots@[r->0 as int].location@
                == location@,
            r is None ==> forall|i: int|
                0 <= i < self.snapshots@.len() ==> (#[trigger] self.snapshots@[i]).location@
                    != location@,
    {
        let wanted = String::from_str(location);
        let mut i: usize = 0;
        while i < self.snapshots.len()
            invariant
                i <= self.snapshots.len(),
                wanted@ == location@,
                forall|j: int|
                    0 <= j < i ==> (#[trigger] self.snapshots@[j]).location@ != location@,
            decreases self.snapshots.len() - i,
        {
            if self.snapshots[i].location == wanted {
                return Some(i);
            }
            i = i + 1;
        }
        None
    }
}

/// A refusal while merging the first of the statistics is the refusal of
/// merging them all.
pub proof fn lemma_merge_all_prefix(base: StatsSpec, adds: Seq<StatsSpec>, k: int)
    requires
        0 <= k <= adds.len(),
        merge_all(base, adds.take(k)) is Err,
    ensures
        merge_all(base, adds) == merge_all(base, adds.take(k)),
    decreases adds.len(),
{
    if k == adds.len() {
        assert(adds.take(k) =~= adds);
    } else {
        assert(adds.drop_last().take(k) =~= adds.take(k));
        lemma_merge_all_prefix(base, adds.drop_last(), k);
    }
}

/// What the chain holds after a commit that went through, given what it
/// held before.
pub open spec fn committed(
    before: Seq<SnapshotSpec>,
    schema: Seq<FieldSpec>,
    entries: Seq<LogEntrySpec>,
    name: Seq<char>,
    timestamp: u64,
    summary: StatsSpec,
) -> SnapshotSpec {
    SnapshotSpec {
        location: snapshot_location_spec(name),
        prev_snapshot_id: if before.len() == 0 {
            None
        } else {
            Some(before.last().location)
        },
        segments: if before.len() == 0 {
            entry_locations(entries)
        } else {
            before.last().segments + entry_locations(entries)
        },
        schema,
        summary,
        timestamp,
    }
}

/// The statistics that a commit starts from: those of the current snapshot,
/// or those of an empty table.
pub open spec fn base_stats(before: Seq<SnapshotSpec>, schema: Seq<FieldSpec>) -> StatsSpec {
    if before.len() == 0 {
        empty_stats(schema)
    } else {
        before.last().summary
    }
}

/// Some snapshot of the list is stored at `location`.
pub open spec fn is_taken(snapshots: Seq<SnapshotSpec>, location: Seq<char>) -> bool {
    exists|i: int| 0 <= i < snapshots.len() && (#[trigger] snapshots[i]).location == location
}

/// A copy of a list of strings.
pub fn clone_strings(strings: &Vec<String>) -> (r: Vec<String>)
    ensures
        texts(r@) == texts(strings@),
{
    let mut out: Vec<String> = Vec::new();
    let mut k: usize = 0;
    while k < strings.len()
        invariant
            k <= strings.len(),
            out.len() == k,
            forall|j: int| 0 <= j < k ==> (#[trigger] out@[j])@ == strings@[j]@,
        decreases strings.len() - k,
    {
        out.push(strings[k].clone());
        k = k + 1;
    }
    assert(texts(out@) =~= texts(strings@));
    out
}

/// Merges the summaries of the entries into `base`, one after the other,
/// and puts the locations of their segments behind `kept`.
fn merge_entries(base: Stats, kept: Vec<String>, entries: &Vec<AppendOperationLogEntry>) -> (r:
    Result<(Stats, Vec<String>), ErrorCode>)
    ensures
        match merge_all(base@, entry_summaries(entries_view(entries@))) {
            Err(k) => r is Err && r->Err_0.kind == k,
            Ok(summary) => r is Ok && r->Ok_0.0@ == summary && texts(r->Ok_0.1@) == texts(kept@)
                + entry_locations(entries_view(entries@)),
        },
{
    let ghost adds = entry_summaries(entries_view(entries@));
    let ghost locations = entry_locations(entries_view(entries@));
    let ghost start = base@;
    let ghost first = texts(kept@);
    let mut summary = base;
    let mut segments = kept;
    let mut i: usize = 0;
    proof {
        assert(adds.take(0) =~= Seq::<StatsSpec>::empty());
        assert(locations.take(0) =~= Seq::<Seq<char>>::empty());
        assert(first + locations.take(0) =~= first);
    }
    while i < entries.len()
        invariant
            i <= entries.len(),
            start == base@,
            first == texts(kept@),
            adds == entry_summaries(entries_view(entries@)),
            locations == entry_locations(entries_view(entries@)),
            merge_all(start, adds.take(i as int)) == Ok::<StatsSpec, ErrorKind>(summary@),
            texts(segments@) == first + locations.take(i as int),
        decreases entries.len() - i,
    {
        let entry = &entries[i];
        let ghost listed = texts(segments@);
        proof {
            assert(adds.take(i + 1).drop_last() =~= adds.take(i as int));
            assert(adds.take(i + 1).last() == entry@.segment_info.summary);
            assert(merge_all(start, adds.take(i + 1)) == merge_spec(
                summary@,
                entry@.segment_info.summary,
            ));
        }
        match summary.merge(&entry.segment_info.summary) {
            Ok(s) => {
                summary = s;
            },
            Err(e) => {
                proof {
                    lemma_merge_all_prefix(start, adds, i + 1);
                }
                return Err(e);
            },
        }
        segments.push(entry.segment_location.clone());
        proof {
            assert(texts(segments@) =~= listed.push(entry.segment_location@));
            assert(locations.take(i + 1) =~= locations.take(i as int).push(locations[i as int]));
            assert(first + locations.take(i + 1) =~= (first + locations.take(i as int)).push(
                locations[i as int],
            ));
        }
        i = i + 1;
    }
    proof {
        assert(adds.take(entries.len() as int) =~= adds);
        assert(locations.take(entries.len() as int) =~= locations);
    }
    Ok((summary, segments))
}

/// A chain stays one when a snapshot is put at its end that names the last
/// one as its predecessor, is later than it, and lies at a location that
/// is not taken.
pub proof fn lemma_chain_push(before: Seq<SnapshotSpec>, made: SnapshotSpec)
    requires
        is_chain(before),
        !is_taken(before, made.location),
        before.len() == 0 ==> made.prev_snapshot_id is None,
        before.len() > 0 ==> made.prev_snapshot_id == Some(before.last().location)
            && before.last().timestamp < made.timestamp,
    ensures
        is_chain(before.push(made)),
{
    reveal(is_chain);
    let after = before.push(made);
    let n = before.len() as int;
    assert forall|a: int| 0 <= a < after.len() implies #[trigger] prev_at(after, a) == if a == 0 {
        None::<Seq<char>>
    } else {
        Some(location_at(after, a - 1))
    } by {
        if a < n {
            assert(prev_at(before, a) == prev_at(after, a));
        }
    }
    assert forall|a: int, b: int| 0 <= a < b < after.len() implies #[trigger] time_at(after, a)
        < #[trigger] time_at(after, b) by {
        assert(time_at(after, a) == time_at(before, a));
        if b < n {
            assert(time_at(after, b) == time_at(before, b));
        } else if a < n - 1 {
            assert(time_at(before, a) < time_at(before, n - 1));
        }
    }
    assert forall|a: int, b: int| 0 <= a < b < after.len() implies #[trigger] location_at(after, a)
        != #[trigger] location_at(after, b) by {
        assert(location_at(after, a) == location_at(before, a));
        if b < n {
            assert(location_at(after, b) == location_at(before, b));
        } else {
            assert(before[a].location != made.location);
        }
    }
}

impl SnapshotChain {
    /// Makes the successor of the current snapshot from the log entries of
    /// finished appends, under the name `name` and with the time
    /// `timestamp`.
    ///
    /// The new snapshot lists the segments of the current one and then those
    /// of the entries, names the current one as its predecessor, and its
    /// summary is that of the current one merged with those of the entries.
    ///
    /// Refused, and the chain left as it is: with `AlreadyExists` where a
    /// snapshot of that name is in the chain; else with `BadArguments` where
    /// `timestamp` is not later than that of the current snapshot; else as
    /// the merge of the statistics is refused.
    pub fn commit(
        &mut self,
        entries: &Vec<AppendOperationLogEntry>,
        name: &str,
        timestamp: u64,
    ) -> (r: Result<(), ErrorCode>)
        requires
            old(self).wf(),
        ensures
            final(self).wf(),
            final(self).schema == old(self).schema,
            ({
                let before = snapshots_view(old(self).snapshots@);
                let schema = old(self).schema@;
                let adds = entry_summaries(entries_view(entries@));
                if is_taken(before, snapshot_location_spec(name@)) {
                    r is Err && r->Err_0.kind == ErrorKind::AlreadyExists && final(self).snapshots
                        == old(self).snapshots
                } else if before.len() > 0 && timestamp <= before.last().timestamp {
                    r is Err && r->Err_0.kind == ErrorKind::BadArguments && final(self).snapshots
                        == old(self).snapshots
                } else {
                    match merge_all(base_stats(before, schema), adds) {
                        Err(k) => r is Err && r->Err_0.kind == k && final(self).snapshots == old(
                            self,
                        ).snapshots,
                        Ok(summary) => r is Ok && snapshots_view(final(self).snapshots@)
                            == before.push(
                            committed(
                                before,
                                schema,
                                entries_view(entries@),
                                name@,
                                timestamp,
                                summary,
                            ),
                        ),
                    }
                }
            }),
    {
        let ghost before = snapshots_view(self.snapshots@);
        let ghost adds = entry_summaries(entries_view(entries@));
        let location = snapshot_location(name);
        let found = self.find(location.as_str());
        if found.is_some() {
            assert(before[found->0 as int].location == snapshot_location_spec(name@));
            return Err(
                ErrorCode::create(
                    ErrorKind::AlreadyExists,
                    String::from_str("a snapshot of this name exists"),
                ),
            );
        }
        assert(!is_taken(before, snapshot_location_spec(name@))) by {
            if is_taken(before, snapshot_location_spec(name@)) {
                let i = choose|i: int|
                    0 <= i < before.len() && (#[trigger] before[i]).location
                        == snapshot_location_spec(name@);
                assert(self.snapshots@[i].location@ != location@);
            }
        }
        let count = self.snapshots.len();
        if count > 0 && timestamp <= self.snapshots[count - 1].timestamp {
            return Err(
                ErrorCode::create(
                    ErrorKind::BadArguments,
                    String::from_str("a snapshot must be later than the one before it"),
                ),
            );
        }
        let base = if count == 0 {
            Stats::empty(&self.schema)
        } else {
            self.snapshots[count - 1].summary.clone()
        };
        let kept = if count == 0 {
            Vec::new()
        } else {
            clone_strings(&self.snapshots[count - 1].segments)
        };
        let prev_snapshot_id = if count == 0 {
            None
        } else {
            Some(self.snapshots[count - 1].location.clone())
        };
        proof {
            assert(base@ == base_stats(before, self.schema@));
            if count == 0 {
                assert(texts(kept@) =~= Seq::<Seq<char>>::empty());
                assert(texts(kept@) + entry_locations(entries_view(entries@))
                    =~= entry_locations(entries_view(entries@)));
            } else {
                assert(texts(kept@) == before.last().segments);
                assert(is_dense(before[count - 1].summary.col_stats, self.schema@.len()));
            }
        }
        let (summary, segments) = match merge_entries(base, kept, entries) {
            Ok(merged) => merged,
            Err(e) => {
                return Err(e);
            },
        };
        let fields = self.schema.num_fields();
        proof {
            let start = base_stats(before, self.schema@);
            let width = fields as nat;
            assert(is_dense(start.col_stats, width)) by {
                if count > 0 {
                    assert(is_dense(before[count - 1].summary.col_stats, width));
                }
            }
            lemma_merge_all_columns(start, adds, width);
        }
        let snapshot = TableSnapshot {
            location,
            prev_snapshot_id,
            segments,
            schema: self.schema.clone(),
            summary,
            timestamp,
        };
        let ghost made = committed(
            before,
            self.schema@,
            entries_view(entries@),
            name@,
            timestamp,
            snapshot.summary@,
        );
        assert(snapshot@ == made);
        self.snapshots.push(snapshot);
        proof {
            assert(snapshots_view(self.snapshots@) =~= before.push(made));
            lemma_chain_push(before, made);
            let after = before.push(made);
            assert forall|a: int| 0 <= a < after.len() implies (#[trigger] after[a]).schema
                == self.schema@ && is_dense(after[a].summary.col_stats, self.schema@.len()) by {
                if a < before.len() {
                    assert(after[a] == before[a]);
                }
            }
        }
        Ok(())
    }
}

} // verus!
