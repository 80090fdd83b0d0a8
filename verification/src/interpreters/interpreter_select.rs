//! The interpreter of `SELECT`.

use vstd::prelude::*;
use crate::datablocks::data_block::DataBlock;
use crate::datavalues::data_schema::DataSchema;
use crate::errors::ErrorCode;
use crate::errors::ErrorKind;
use crate::sessions::context_shared::PollStep;
use crate::sessions::context_shared::QueryContextShared;

verus! {

/// What a `SELECT` plan says of its result.
#[derive(Debug, PartialEq, Eq)]
pub struct SelectPlan {
    /// The schema of the rows that the query yields.
    pub schema: DataSchema,
}

/// The interpreter of one `SELECT` plan.
#[derive(Debug, PartialEq, Eq)]
pub struct SelectInterpreter {
    pub select: SelectPlan,
}

impl SelectInterpreter {
    pub fn try_create(select: SelectPlan) -> (r: Result<SelectInterpreter, ErrorCode>)
        ensures
            r is Ok,
            r->Ok_0.select == select,
    {
        Ok(SelectInterpreter { select })
    }

    pub fn name(&self) -> (s: &'static str)
        ensures
            s@ == "SelectInterpreter"@,
    {
        "SelectInterpreter"
    }

    /// The schema of the result.
    pub fn schema(&self) -> (s: DataSchema)
        ensures
            s@ == self.select.schema@,
    {
        self.select.schema.clone()
    }

    /// What the stream of the result does when the client polls it: the
    /// stream is registered with the query, and ends with `Aborted` as soon
    /// as the query has been aborted.
    pub fn poll_step(&self, shared: &QueryContextShared) -> (r: Result<PollStep, ErrorCode>)
        ensures
            shared.aborted ==> r is Err && r->Err_0.kind == ErrorKind::Aborted,
            !shared.aborted ==> r == Ok::<PollStep, ErrorCode>(PollStep::Forward),
    {
        shared.poll_step()
    }

    /// What the stream of the result does with a block that arrives from
    /// the pipeline: it hands the block to the client, unless the query
    /// has been aborted in the meantime. Then the block is dropped and the
    /// stream ends with `Aborted`.
    pub fn on_arrival(&self, shared: &QueryContextShared, block: DataBlock) -> (r: Result<
        DataBlock,
        ErrorCode,
    >)
        ensures
            shared.aborted ==> r is Err && r->Err_0.kind == ErrorKind::Aborted,
            !shared.aborted ==> r is Ok && r->Ok_0 == block,
    {
        shared.on_arrival(block)
    }
}

} // verus!
