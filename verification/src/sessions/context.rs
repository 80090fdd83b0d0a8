//! The context of a query.
//!
//! Any number of contexts belong to one query. Each holds its own queue of
//! partitions and its own statistics; the rest is shared, and is handed to
//! the functions that need it.

use std::collections::VecDeque;
use vstd::prelude::*;
use crate::catalogs::table_info::TableInfo;
use crate::configs::Config;
use crate::datavalues::data_value::DataValue;
use crate::errors::ErrorCode;
use crate::errors::ErrorKind;
use crate::planners::Part;
use crate::planners::Partitions;
use crate::planners::ReadDataSourcePlan;
use crate::planners::Statistics;
use crate::sequences::total;
use crate::sessions::context_shared::QueryContextShared;
use crate::sessions::data_accessor::DalMetrics;
use crate::sessions::data_accessor::DataAccessorPlan;
use crate::sessions::data_accessor::plan_data_accessor;
use crate::sessions::data_accessor::plan_matches;
use crate::sessions::data_accessor::scheme_of;
use crate::sessions::data_accessor::unknown_scheme_message;
use crate::sessions::progress::Progress;
use crate::sessions::progress::ProgressValues;

verus! {

/// The state that one context of a query holds for itself.
#[derive(Debug)]
pub struct QueryContext {
    pub version: String,
    pub statistics: Statistics,
    pub partition_queue: VecDeque<Part>,
}

/// The text that names the version of the engine.
pub open spec fn version_text(commit_version: Seq<char>) -> Seq<char> {
    "DatabendQuery v-"@ + commit_version
}

/// How many partitions a worker gets that asks for `num` of a queue.
pub open spec fn stolen_count(queue: Seq<Part>, num: nat) -> nat {
    if num <= queue.len() {
        num
    } else {
        queue.len()
    }
}

/// The partitions that a worker gets that asks for `num` of a queue: those
/// at the back, the last one first.
pub open spec fn stolen(queue: Seq<Part>, num: nat) -> Seq<Part> {
    Seq::new(stolen_count(queue, num), |i: int| queue[queue.len() - 1 - i])
}

/// What stays in the queue when a worker has asked for `num` partitions.
pub open spec fn left(queue: Seq<Part>, num: nat) -> Seq<Part> {
    queue.take(queue.len() - stolen_count(queue, num))
}

/// A worker gets no more partitions than it asks for, and every partition
/// of the queue is either handed out or still queued, once and in one place
/// only: what is left, followed by what was handed out in reverse, is the
/// queue as it was.
pub proof fn lemma_partitions_conserved(queue: Seq<Part>, num: nat)
    ensures
        stolen(queue, num).len() <= num,
        stolen(queue, num).len() + left(queue, num).len() == queue.len(),
        left(queue, num) + stolen(queue, num).reverse() == queue,
{
    assert(left(queue, num) + stolen(queue, num).reverse() =~= queue);
}

/// What was put into an empty queue comes out again, the last partition
/// first, however many are asked for at a time, until none is left.
pub proof fn lemma_set_then_get(parts: Seq<Part>, first: nat, second: nat)
    requires
        first + second >= parts.len(),
    ensures
        (stolen(parts, first) + stolen(left(parts, first), second)).reverse() == parts,
{
    let a = stolen(parts, first);
    let rest = left(parts, first);
    let b = stolen(rest, second);
    assert((a + b).reverse() =~= parts);
}

/// What stays in the queue after a row of calls, each of which asks for as
/// many partitions as `asks` says in its place. The calls may come from any
/// number of workers: the queue serves them one after the other.
pub open spec fn left_after(queue: Seq<Part>, asks: Seq<nat>) -> Seq<Part>
    decreases asks.len(),
{
    if asks.len() == 0 {
        queue
    } else {
        left(left_after(queue, asks.drop_last()), asks.last())
    }
}

/// What a row of calls hands out, one call after the other.
pub open spec fn handed_out(queue: Seq<Part>, asks: Seq<nat>) -> Seq<Part>
    decreases asks.len(),
{
    if asks.len() == 0 {
        Seq::empty()
    } else {
        handed_out(queue, asks.drop_last()) + stolen(
            left_after(queue, asks.drop_last()),
            asks.last(),
        )
    }
}

/// Over any row of calls, every partition of the queue is either handed out
/// or still queued, once and in one place only: what is left, followed by
/// what was handed out in reverse, is the queue as it was. No call hands
/// out more than it asks for, so that no more is handed out than was asked
/// for in all.
pub proof fn lemma_partitions_conserved_over_calls(queue: Seq<Part>, asks: Seq<nat>)
    ensures
        left_after(queue, asks) + handed_out(queue, asks).reverse() == queue,
        handed_out(queue, asks).len() + left_after(queue, asks).len() == queue.len(),
        handed_out(queue, asks).len() <= total(asks),
        left_after(queue, asks).len() == if total(asks) >= queue.len() {
            0
        } else {
            queue.len() - total(asks)
        },
    decreases asks.len(),
{
    if asks.len() == 0 {
        assert(left_after(queue, asks) + handed_out(queue, asks).reverse() =~= queue);
    } else {
        let before = asks.drop_last();
        let rest = left_after(queue, before);
        let out = handed_out(queue, before);
        let step = stolen(rest, asks.last());
        lemma_partitions_conserved_over_calls(queue, before);
        lemma_partitions_conserved(rest, asks.last());
        assert((out + step).reverse() =~= step.reverse() + out.reverse());
        assert(left(rest, asks.last()) + (step.reverse() + out.reverse()) =~= (left(
            rest,
            asks.last(),
        ) + step.reverse()) + out.reverse());
    }
}

/// Once the calls have asked for as many partitions as the queue held, the
/// queue is empty, and what was handed out is the queue in reverse: what
/// goes in comes out exactly once.
pub proof fn lemma_queue_drained(queue: Seq<Part>, asks: Seq<nat>)
    requires
        total(asks) >= queue.len(),
    ensures
        left_after(queue, asks).len() == 0,
        handed_out(queue, asks).reverse() == queue,
{
    lemma_partitions_conserved_over_calls(queue, asks);
    assert(left_after(queue, asks) + handed_out(queue, asks).reverse() =~= handed_out(
        queue,
        asks,
    ).reverse());
}

/// What a plan asks the catalog to build.
#[derive(Debug)]
pub enum TableRequest<'a> {
    /// The table that the plan describes.
    Table(&'a TableInfo),
    /// The table function of the given name, applied to the arguments.
    TableFunction(&'a String, &'a Vec<DataValue>),
}

impl QueryContext {
    /// A new context of the query whose shared state is `shared`: one more
    /// context is alive. It starts with an empty queue of partitions.
    pub fn from_shared(shared: &mut QueryContextShared, commit_version: &str) -> (ctx:
        QueryContext)
        ensures
            ctx.version@ == version_text(commit_version@),
            ctx.statistics == (Statistics { read_rows: 0, read_bytes: 0, is_exact: false }),
            ctx.partition_queue@.len() == 0,
            *final(shared) == (QueryContextShared {
                ref_count: old(shared).ref_count.wrapping_add(1),
                ..*old(shared)
            }),
    {
        shared.increment_ref_count();
        let mut version = String::from_str("DatabendQuery v-");
        version.append(commit_version);
        QueryContext {
            version,
            statistics: Statistics::default(),
            partition_queue: VecDeque::new(),
        }
    }

    /// A new context of the same query as `other`.
    pub fn new(other: &QueryContext, shared: &mut QueryContextShared) -> (ctx: QueryContext)
        ensures
            ctx.version@ == other.version@,
            ctx.statistics == (Statistics { read_rows: 0, read_bytes: 0, is_exact: false }),
            ctx.partition_queue@.len() == 0,
            *final(shared) == (QueryContextShared {
                ref_count: old(shared).ref_count.wrapping_add(1),
                ..*old(shared)
            }),
    {
        shared.increment_ref_count();
        QueryContext {
            version: other.version.clone(),
            statistics: Statistics::default(),
            partition_queue: VecDeque::new(),
        }
    }

    /// The end of a context: one context less is alive. Where it was the
    /// last one of the query, the resources of the session are released,
    /// and `true` comes back. A context ends once: it is gone afterwards.
    pub fn destroy(self, shared: &mut QueryContextShared) -> (last: bool)
        ensures
            last == (old(shared).ref_count == 1),
            *final(shared) == (QueryContextShared {
                ref_count: old(shared).ref_count.wrapping_sub(1),
                destroyed: old(shared).destroyed || last,
                ..*old(shared)
            }),
    {
        shared.destroy_context_ref()
    }

    /// What the plan asks the catalog to build: the table it describes, or,
    /// where it carries arguments, the table function of the table's name
    /// applied to them.
    pub fn build_table_from_source_plan<'a>(&self, plan: &'a ReadDataSourcePlan) -> (r:
        TableRequest<'a>)
        ensures
            plan.tbl_args is None ==> r is Table && *r->Table_0 == plan.table_info,
            plan.tbl_args is Some ==> r is TableFunction && *r->TableFunction_0
                == plan.table_info.name && *r->TableFunction_1 == plan.tbl_args->0,
    {
        match &plan.tbl_args {
            None => TableRequest::Table(&plan.table_info),
            Some(args) => TableRequest::TableFunction(&plan.table_info.name, args),
        }
    }

    /// What a source reports after each block: the rows and bytes it has
    /// read are added to the progress of the query.
    pub fn progress_callback(&self, shared: &mut QueryContextShared, value: &ProgressValues)
        ensures
            *final(shared) == (QueryContextShared {
                progress: Progress {
                    read_rows: old(shared).progress.read_rows.wrapping_add(value.read_rows),
                    read_bytes: old(shared).progress.read_bytes.wrapping_add(value.read_bytes),
                    total_rows_to_read: old(shared).progress.total_rows_to_read,
                },
                ..*old(shared)
            }),
    {
        shared.progress.incr(value);
    }

    pub fn get_progress_value(&self, shared: &QueryContextShared) -> (v: ProgressValues)
        ensures
            v == (ProgressValues {
                read_rows: shared.progress.read_rows,
                read_bytes: shared.progress.read_bytes,
                total_rows_to_read: shared.progress.total_rows_to_read,
            }),
    {
        shared.progress.get_values()
    }

    pub fn get_and_reset_progress_value(&self, shared: &mut QueryContextShared) -> (v:
        ProgressValues)
        ensures
            v == (ProgressValues {
                read_rows: old(shared).progress.read_rows,
                read_bytes: old(shared).progress.read_bytes,
                total_rows_to_read: old(shared).progress.total_rows_to_read,
            }),
            *final(shared) == (QueryContextShared {
                progress: Progress { read_rows: 0, read_bytes: 0, total_rows_to_read: 0 },
                ..*old(shared)
            }),
    {
        shared.progress.get_and_reset()
    }

    /// Some tables can tell beforehand about how many rows a read will
    /// yield.
    pub fn add_total_rows_approx(&self, shared: &mut QueryContextShared, total_rows: usize)
        ensures
            *final(shared) == (QueryContextShared {
                progress: Progress {
                    read_rows: old(shared).progress.read_rows,
                    read_bytes: old(shared).progress.read_bytes,
                    total_rows_to_read: old(shared).progress.total_rows_to_read.wrapping_add(
                        total_rows,
                    ),
                },
                ..*old(shared)
            }),
    {
        shared.progress.add_total_rows_approx(total_rows);
    }

    /// A worker takes up to `num` partitions from the back of the queue,
    /// the last one first. An empty queue gives an empty list, which tells
    /// the worker that no work is left.
    pub fn try_get_partitions(&mut self, num: usize) -> (r: Result<Partitions, ErrorCode>)
        ensures
            r is Ok,
            r->Ok_0@ == stolen(old(self).partition_queue@, num as nat),
            final(self).partition_queue@ == left(old(self).partition_queue@, num as nat),
            final(self).version == old(self).version,
            final(self).statistics == old(self).statistics,
    {
        let ghost queue = self.partition_queue@;
        let mut partitions: Vec<Part> = Vec::new();
        let mut taken: usize = 0;
        while taken < num
            invariant
                queue == old(self).partition_queue@,
                taken <= num,
                taken <= queue.len(),
                partitions@.len() == taken,
                self.partition_queue@ == queue.take(queue.len() - taken),
                forall|i: int| 0 <= i < taken ==> #[trigger] partitions@[i] == queue[queue.len() - 1 - i],
                self.version == old(self).version,
                self.statistics == old(self).statistics,
            decreases num - taken,
        {
            match self.partition_queue.pop_back() {
                None => {
                    assert(taken == queue.len());
                    assert(partitions@ =~= stolen(queue, num as nat));
                    assert(self.partition_queue@ =~= left(queue, num as nat));
                    return Ok(partitions);
                },
                Some(partition) => {
                    partitions.push(partition);
                    assert(self.partition_queue@ =~= queue.take(queue.len() - taken - 1));
                },
            }
            taken = taken + 1;
        }
        assert(partitions@ =~= stolen(queue, num as nat));
        assert(self.partition_queue@ =~= left(queue, num as nat));
        Ok(partitions)
    }

    /// The pipeline builder puts partitions at the back of the queue, in
    /// their order.
    pub fn try_set_partitions(&mut self, partitions: Partitions) -> (r: Result<(), ErrorCode>)
        ensures
            r is Ok,
            final(self).partition_queue@ == old(self).partition_queue@ + partitions@,
            final(self).version == old(self).version,
            final(self).statistics == old(self).statistics,
    {
        for part in it: partitions
            invariant
                it.seq() == partitions@,
                self.partition_queue@ == old(self).partition_queue@ + partitions@.take(
                    it.index() as int,
                ),
                self.version == old(self).version,
                self.statistics == old(self).statistics,
        {
            self.partition_queue.push_back(part);
            assert(self.partition_queue@ =~= old(self).partition_queue@ + partitions@.take(
                it.index() + 1,
            ));
        }
        assert(partitions@.take(partitions@.len() as int) =~= partitions@);
        Ok(())
    }

    pub fn try_get_statistics(&self) -> (r: Result<Statistics, ErrorCode>)
        ensures
            r == Ok::<Statistics, ErrorCode>(self.statistics),
    {
        Ok(self.statistics)
    }

    pub fn try_set_statistics(&mut self, val: &Statistics) -> (r: Result<(), ErrorCode>)
        ensures
            r is Ok,
            final(self).statistics == *val,
            final(self).version == old(self).version,
            final(self).partition_queue == old(self).partition_queue,
    {
        self.statistics = *val;
        Ok(())
    }

    pub fn attach_query_str(&self, shared: &mut QueryContextShared, query: &str)
        ensures
            final(shared).query_str@ == query@,
            *final(shared) == (QueryContextShared {
                query_str: final(shared).query_str,
                ..*old(shared)
            }),
    {
        shared.attach_query_str(query);
    }

    pub fn get_id(&self, shared: &QueryContextShared) -> (id: String)
        ensures
            id@ == shared.init_query_id@,
    {
        shared.get_id()
    }

    pub fn get_current_database(&self, shared: &QueryContextShared) -> (name: String)
        ensures
            name@ == shared.current_database@,
    {
        shared.get_current_database()
    }

    pub fn get_current_user(&self, shared: &QueryContextShared) -> (r: Result<String, ErrorCode>)
        ensures
            r is Ok,
            r->Ok_0@ == shared.current_user@,
    {
        shared.get_current_user()
    }

    /// Makes `new_database_name` the current database of the query, where
    /// the catalog has found a database of that name (`found`).
    pub fn set_current_database(
        &self,
        shared: &mut QueryContextShared,
        new_database_name: String,
        found: bool,
    ) -> (r: Result<(), ErrorCode>)
        ensures
            found ==> r is Ok && final(shared).current_database@ == new_database_name@,
            !found ==> r is Err && r->Err_0.kind == ErrorKind::UnknownDatabase && r->Err_0.message@
                == crate::sessions::context_shared::unknown_database_message(new_database_name@)
                && final(shared).current_database == old(shared).current_database,
            *final(shared) == (QueryContextShared {
                current_database: final(shared).current_database,
                ..*old(shared)
            }),
    {
        shared.set_current_database(new_database_name, found)
    }

    pub fn get_fuse_version(&self) -> (v: String)
        ensures
            v@ == self.version@,
    {
        self.version.clone()
    }

    /// The configuration of the node.
    pub fn get_config(&self, shared: &QueryContextShared) -> (conf: Config)
        ensures
            conf@ == shared.conf@,
    {
        shared.conf.clone()
    }

    /// A name for the next subquery of the query.
    pub fn get_subquery_name(&self, shared: &mut QueryContextShared) -> (name: String)
        ensures
            name@ == crate::sessions::context_shared::subquery_name(old(shared).subquery_index),
            *final(shared) == (QueryContextShared {
                subquery_index: old(shared).subquery_index.wrapping_add(1),
                ..*old(shared)
            }),
    {
        shared.get_subquery_name()
    }

    /// The object store that the query reads and writes, as its
    /// configuration asks for it.
    pub fn get_data_accessor(&self, shared: &QueryContextShared) -> (r: Result<
        DataAccessorPlan,
        ErrorCode,
    >)
        ensures
            match scheme_of(shared.conf.storage.storage_type@) {
                Some(scheme) => r is Ok && plan_matches(r->Ok_0, scheme, &shared.conf.storage),
                None => r is Err && r->Err_0.kind == ErrorKind::BadArguments && r->Err_0.message@
                    == unknown_scheme_message(shared.conf.storage.storage_type@),
            },
    {
        plan_data_accessor(&shared.conf.storage)
    }

    /// What the query has read from and written to the object store.
    pub fn get_dal_metrics(&self, shared: &QueryContextShared) -> (m: DalMetrics)
        ensures
            m == shared.dal_ctx.metrics,
    {
        shared.dal_ctx.get_metrics()
    }

    /// A source stream of the query registers to be aborted with it.
    pub fn try_create_abortable(&self, shared: &mut QueryContextShared) -> (r: Result<
        (),
        ErrorCode,
    >)
        ensures
            r is Ok,
            *final(shared) == (QueryContextShared {
                abort_handles: old(shared).abort_handles.wrapping_add(1),
                ..*old(shared)
            }),
    {
        shared.add_source_abort_handle();
        Ok(())
    }
}

/// What happens to the number of live contexts of a query.
#[derive(Clone, Copy, Debug, PartialEq, Eq, Structural)]
pub enum ContextEvent {
    /// A context is made.
    Created,
    /// A context ends.
    Ended,
}

/// The number of contexts made less the number of contexts ended.
pub open spec fn alive(events: Seq<ContextEvent>) -> int
    decreases events.len(),
{
    if events.len() == 0 {
        0
    } else {
        alive(events.drop_last()) + if events.last() == ContextEvent::Created {
            1int
        } else {
            -1int
        }
    }
}

/// The count of live contexts that the shared state holds after the events,
/// where it starts at `start`.
pub open spec fn count_after(start: usize, events: Seq<ContextEvent>) -> usize
    decreases events.len(),
{
    if events.len() == 0 {
        start
    } else if events.last() == ContextEvent::Created {
        count_after(start, events.drop_last()).wrapping_add(1)
    } else {
        count_after(start, events.drop_last()).wrapping_sub(1)
    }
}

/// Whether the event at place `i` releases the resources of the session: it
/// is the end of a context, and the count stands at one before it.
pub open spec fn releases(events: Seq<ContextEvent>, i: int) -> bool {
    events[i] == ContextEvent::Ended && count_after(0, events.take(i)) == 1
}

/// No context ends that was not made, and no more contexts are alive at a
/// time than the count can hold.
pub open spec fn is_lifetime(events: Seq<ContextEvent>) -> bool {
    forall|k: int| 0 <= k <= events.len() ==> 0 <= #[trigger] alive(events.take(k)) <= usize::MAX
}

/// Over the life of a query the count is the number of live contexts.
pub proof fn lemma_count_is_alive(events: Seq<ContextEvent>)
    requires
        is_lifetime(events),
    ensures
        count_after(0, events) == alive(events),
    decreases events.len(),
{
    if events.len() > 0 {
        let front = events.drop_last();
        assert forall|k: int| 0 <= k <= front.len() implies 0 <= #[trigger] alive(front.take(k))
            <= usize::MAX by {
            assert(front.take(k) =~= events.take(k));
        }
        lemma_count_is_alive(front);
        assert(events.take(events.len() as int) =~= events);
        assert(front =~= events.take(events.len() - 1));
        assert(0 <= alive(events.take(events.len() as int)) <= usize::MAX);
        assert(0 <= alive(events.take(events.len() - 1)) <= usize::MAX);
    }
}

/// The resources of the session are released exactly when the last live
/// context ends: the end of a context releases them if and only if no
/// context is alive after it.
pub proof fn lemma_release_on_last(events: Seq<ContextEvent>, i: int)
    requires
        is_lifetime(events),
        0 <= i < events.len(),
        events[i] == ContextEvent::Ended,
    ensures
        releases(events, i) <==> alive(events.take(i + 1)) == 0,
{
    let before = events.take(i);
    assert forall|k: int| 0 <= k <= before.len() implies 0 <= #[trigger] alive(before.take(k))
        <= usize::MAX by {
        assert(before.take(k) =~= events.take(k));
    }
    lemma_count_is_alive(before);
    assert(events.take(i + 1).drop_last() =~= before);
    assert(events.take(i + 1).last() == events[i]);
}

} // verus!
