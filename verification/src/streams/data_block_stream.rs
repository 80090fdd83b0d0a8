//! A stream over blocks that are at hand.

use vstd::prelude::*;
use crate::datablocks::data_block::BlockSpec;
use crate::datablocks::data_block::DataBlock;
use crate::datavalues::data_schema::DataSchema;

verus! {

/// A finite stream that yields the blocks it was made with, in their order,
/// and then ends. It cannot be started again.
#[derive(Debug)]
pub struct DataBlockStream {
    pub schema: DataSchema,
    pub data: Vec<DataBlock>,
    /// The number of blocks handed out so far.
    pub current: usize,
}

/// The views of the blocks, in their order.
pub open spec fn blocks_view(blocks: Seq<DataBlock>) -> Seq<BlockSpec> {
    Seq::new(blocks.len(), |i: int| blocks[i]@)
}

impl DataBlockStream {
    /// No more blocks are handed out than there are.
    pub open spec fn wf(&self) -> bool {
        self.current <= self.data@.len()
    }

    /// Every block of the stream is well formed.
    pub open spec fn blocks_wf(&self) -> bool {
        forall|i: int| 0 <= i < self.data@.len() ==> (#[trigger] self.data@[i]).wf()
    }

    /// The blocks that the stream has yet to yield.
    pub open spec fn remaining(&self) -> Seq<BlockSpec> {
        blocks_view(self.data@).skip(self.current as int)
    }

    /// The stream of the given blocks.
    pub fn create(schema: DataSchema, data: Vec<DataBlock>) -> (s: DataBlockStream)
        ensures
            s.wf(),
            s.schema == schema,
            s.data == data,
            s.current == 0,
            s.remaining() == blocks_view(data@),
    {
        let s = DataBlockStream { schema, data, current: 0 };
        assert(s.remaining() =~= blocks_view(data@));
        s
    }

    /// The stream of one block.
    pub fn single(block: DataBlock) -> (s: DataBlockStream)
        ensures
            s.wf(),
            s.schema@ == block@.schema,
            s.data@ == seq![block],
            s.current == 0,
            s.remaining() == seq![block@],
            block.wf() ==> s.blocks_wf(),
    {
        let schema = block.schema().clone();
        let ghost view = block@;
        let mut data: Vec<DataBlock> = Vec::new();
        data.push(block);
        let s = DataBlockStream { schema, data, current: 0 };
        assert(s.remaining() =~= seq![view]);
        assert(s.data@ =~= seq![block]);
        s
    }

    /// The next block of the stream; nothing once the stream has ended, and
    /// nothing ever after. The block that comes out is as well formed as
    /// the block that the stream holds in that place.
    pub fn poll_next(&mut self) -> (r: Option<DataBlock>)
        requires
            old(self).wf(),
        ensures
            final(self).wf(),
            final(self).schema == old(self).schema,
            final(self).data == old(self).data,
            old(self).remaining().len() == 0 ==> r is None && final(self).current == old(
                self,
            ).current && final(self).remaining().len() == 0,
            old(self).remaining().len() > 0 ==> r is Some && r->0@ == old(self).remaining()[0]
                && final(self).current == old(self).current + 1 && final(self).remaining()
                == old(self).remaining().drop_first(),
            r is Some && old(self).data@[old(self).current as int].wf() ==> r->0.wf(),
            r is Some && old(self).blocks_wf() ==> r->0.wf(),
    {
        if self.current < self.data.len() {
            let block = self.data[self.current].clone();
            self.current = self.current + 1;
            assert(self.remaining() =~= old(self).remaining().drop_first());
            Some(block)
        } else {
            None
        }
    }
}

} // verus!
