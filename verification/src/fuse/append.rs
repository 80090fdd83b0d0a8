//! The append protocol: blocks in, one segment out.
//!
//! An append pulls blocks from a stream, writes each to a location of its
//! own, and, once the stream has ended, writes one segment that lists the
//! blocks in the order in which they arrived. Reading the stream and writing
//! objects is the caller's part. The appender decides what is written where,
//! and keeps the record:
//!
//! * `on_block` for each block that the stream yields: the caller writes the
//!   block to the location that comes back, then reports the number of bytes
//!   written with `on_block_written`;
//! * `on_end_of_stream` when the stream has ended: where a location comes
//!   back the caller writes `segment_to_write` there and reports with
//!   `on_segment_written`;
//! * `on_failure` when the stream or a write has failed: the append is over,
//!   and what was written stays where it is;
//! * `finish` for the log entry of the append, if it wrote anything.

use vstd::prelude::*;
use crate::datablocks::data_block::DataBlock;
use crate::errors::ErrorCode;
use crate::errors::ErrorKind;
use crate::fuse::location_gen::block_location;
use crate::fuse::location_gen::gen_block_location;
use crate::fuse::location_gen::gen_segment_info_location;
use crate::fuse::location_gen::is_simple_uuid;
use crate::fuse::location_gen::segment_location;
use crate::fuse::meta::AppendOperationLogEntry;
use crate::fuse::meta::block_metas_view;
use crate::fuse::meta::BlockMeta;
use crate::fuse::meta::BlockMetaSpec;
use crate::fuse::meta::col_stats_view;
use crate::fuse::meta::SegmentInfo;
use crate::fuse::statistics::block_stats;
use crate::fuse::statistics::is_block_stats_of;
use crate::fuse::statistics::sizes_fit;
use crate::fuse::summary::is_summary_of;
use crate::fuse::summary::sums_fit;
use crate::fuse::summary::uniform;

verus! {

/// Where an append stands.
#[derive(Clone, Copy, Debug, PartialEq, Eq, Structural)]
pub enum AppendPhase {
    /// Waiting for the next block, or for the end of the stream.
    Polling,
    /// A block is being written.
    WritingBlock,
    /// The segment is being written.
    WritingSegment,
    /// The append has ended well.
    Done,
    /// The append has been given up.
    Failed,
}

/// The state of one append.
#[derive(Debug)]
pub struct BlockAppender {
    pub phase: AppendPhase,
    /// The blocks written so far, in the order of the stream.
    pub blocks: Vec<BlockMeta>,
    /// The block that is being written; its byte size is not known yet.
    pub pending: Option<BlockMeta>,
    /// The record of the append, from the moment its segment is composed.
    pub entry: Option<AppendOperationLogEntry>,
}

/// The failure of a step that the phase of the append does not allow.
fn out_of_turn() -> (e: ErrorCode)
    ensures
        e.kind == ErrorKind::Internal,
{
    ErrorCode::create(
        ErrorKind::Internal,
        String::from_str("the append is not in the phase for this step"),
    )
}

impl BlockAppender {
    /// What is pending and what is recorded fit the phase.
    pub open spec fn wf(&self) -> bool {
        &&& self.pending is Some <==> self.phase == AppendPhase::WritingBlock
        &&& self.phase == AppendPhase::WritingSegment ==> self.entry is Some
        &&& self.entry is Some ==> self.entry->0.segment_info.wf() && block_metas_view(
            self.entry->0.segment_info.blocks@,
        ) == block_metas_view(self.blocks@) && self.blocks@.len() > 0
        &&& self.phase == AppendPhase::Polling ==> self.entry is None
    }

    /// An append that has seen nothing yet.
    pub fn new() -> (a: BlockAppender)
        ensures
            a.wf(),
            a.phase == AppendPhase::Polling,
            a.blocks@.len() == 0,
            a.pending is None,
            a.entry is None,
    {
        BlockAppender {
            phase: AppendPhase::Polling,
            blocks: Vec::new(),
            pending: None,
            entry: None,
        }
    }

    pub fn phase(&self) -> (p: AppendPhase)
        ensures
            p == self.phase,
    {
        self.phase
    }

    /// The stream has yielded `block`, which is to be written to `location`.
    ///
    /// While polling, the block's row count and column statistics are put
    /// down as pending, and the append waits for the write. Where the
    /// statistics cannot be taken the append fails. In any other phase the
    /// step is refused and changes nothing.
    pub fn on_block_at(&mut self, block: &DataBlock, location: String) -> (r: Result<
        (),
        ErrorCode,
    >)
        requires
            old(self).wf(),
            block.wf(),
        ensures
            final(self).wf(),
            final(self).blocks == old(self).blocks,
            final(self).entry == old(self).entry,
            r is Err ==> r->Err_0.kind == ErrorKind::Internal,
            old(self).phase != AppendPhase::Polling ==> r is Err && *final(self) == *old(self),
            old(self).phase == AppendPhase::Polling && !sizes_fit(block@.columns) ==> r is Err
                && final(self).phase == AppendPhase::Failed && final(self).pending is None,
            old(self).phase == AppendPhase::Polling && sizes_fit(block@.columns) ==> r is Ok
                && final(self).phase == AppendPhase::WritingBlock && final(self).pending is Some
                && final(self).pending->0.row_count == block.rows()
                && final(self).pending->0.byte_size == 0
                && final(self).pending->0.location@ == location@
                && is_block_stats_of(col_stats_view(final(self).pending->0.col_stats@), block),
    {
        if self.phase != AppendPhase::Polling {
            return Err(out_of_turn());
        }
        match block_stats(block) {
            Ok(col_stats) => {
                let meta = BlockMeta {
                    row_count: block.num_rows() as u64,
                    byte_size: 0,
                    location,
                    col_stats,
                };
                self.pending = Some(meta);
                self.phase = AppendPhase::WritingBlock;
                Ok(())
            },
            Err(e) => {
                self.phase = AppendPhase::Failed;
                Err(e)
            },
        }
    }

    /// The stream has yielded `block`. A location under a fresh name is
    /// chosen for it and handed back: the caller writes the block there.
    /// Apart from the choice of the name, the step is `on_block_at`.
    pub fn on_block(&mut self, block: &DataBlock) -> (r: Result<String, ErrorCode>)
        requires
            old(self).wf(),
            block.wf(),
        ensures
            final(self).wf(),
            final(self).blocks == old(self).blocks,
            final(self).entry == old(self).entry,
            r is Err ==> r->Err_0.kind == ErrorKind::Internal,
            old(self).phase != AppendPhase::Polling ==> r is Err && *final(self) == *old(self),
            old(self).phase == AppendPhase::Polling && !sizes_fit(block@.columns) ==> r is Err
                && final(self).phase == AppendPhase::Failed && final(self).pending is None,
            old(self).phase == AppendPhase::Polling && sizes_fit(block@.columns) ==> r is Ok
                && final(self).phase == AppendPhase::WritingBlock && final(self).pending is Some
                && final(self).pending->0.row_count == block.rows()
                && final(self).pending->0.byte_size == 0
                && final(self).pending->0.location@ == r->Ok_0@
                && is_block_stats_of(col_stats_view(final(self).pending->0.col_stats@), block) && (
            exists|uuid: Seq<char>| is_simple_uuid(uuid) && r->Ok_0@ == #[trigger] block_location(uuid)),
    {
        if self.phase != AppendPhase::Polling {
            return Err(out_of_turn());
        }
        let location = gen_block_location();
        match self.on_block_at(block, location.clone()) {
            Ok(()) => Ok(location),
            Err(e) => Err(e),
        }
    }

    /// The pending block has been written, in `byte_size` bytes. It is
    /// recorded after the blocks written before it, and the append polls
    /// again. In a phase other than `WritingBlock` the step is refused and
    /// changes nothing.
    pub fn on_block_written(&mut self, byte_size: u64) -> (r: Result<(), ErrorCode>)
        requires
            old(self).wf(),
        ensures
            final(self).wf(),
            r is Err ==> r->Err_0.kind == ErrorKind::Internal,
            old(self).phase != AppendPhase::WritingBlock ==> r is Err && *final(self) == *old(self),
            old(self).phase == AppendPhase::WritingBlock ==> r is Ok && final(self).phase
                == AppendPhase::Polling && final(self).pending is None && final(self).entry
                is None && block_metas_view(final(self).blocks@) == block_metas_view(
                old(self).blocks@,
            ).push(
                (BlockMetaSpec {
                    row_count: old(self).pending->0.row_count,
                    byte_size,
                    location: old(self).pending->0.location@,
                    col_stats: col_stats_view(old(self).pending->0.col_stats@),
                }),
            ),
    {
        if self.phase != AppendPhase::WritingBlock {
            return Err(out_of_turn());
        }
        let pending = self.pending.take();
        match pending {
            Some(mut meta) => {
                meta.byte_size = byte_size;
                self.blocks.push(meta);
                self.phase = AppendPhase::Polling;
                self.entry = None;
                proof {
                    assert(block_metas_view(self.blocks@) =~= block_metas_view(
                        old(self).blocks@,
                    ).push(
                        (BlockMetaSpec {
                            row_count: old(self).pending->0.row_count,
                            byte_size,
                            location: old(self).pending->0.location@,
                            col_stats: col_stats_view(old(self).pending->0.col_stats@),
                        }),
                    ));
                }
                Ok(())
            },
            None => Err(out_of_turn()),
        }
    }

    /// The stream has ended, and `location` is where a segment would go.
    ///
    /// While polling: where no block was written the append is done and has
    /// nothing to show, and nothing is to be written. Otherwise the segment
    /// of the blocks is composed, the location comes back, and the append
    /// waits for the write; where the segment cannot be composed the append
    /// fails. In any other phase the step is refused and changes nothing.
    pub fn on_end_of_stream_at(&mut self, location: String) -> (r: Result<
        Option<String>,
        ErrorCode,
    >)
        requires
            old(self).wf(),
        ensures
            final(self).wf(),
            final(self).blocks == old(self).blocks,
            final(self).pending == old(self).pending,
            old(self).phase != AppendPhase::Polling ==> r is Err && r->Err_0.kind
                == ErrorKind::Internal && *final(self) == *old(self),
            old(self).phase == AppendPhase::Polling ==> ({
                let metas = block_metas_view(old(self).blocks@);
                if metas.len() == 0 {
                    r is Ok && r->Ok_0 is None && final(self).phase == AppendPhase::Done
                        && final(self).entry is None
                } else if !uniform(metas) {
                    r is Err && r->Err_0.kind == ErrorKind::BadArguments && final(self).phase
                        == AppendPhase::Failed && final(self).entry is None
                } else if !sums_fit(metas) {
                    r is Err && r->Err_0.kind == ErrorKind::Internal && final(self).phase
                        == AppendPhase::Failed && final(self).entry is None
                } else {
                    r is Ok && r->Ok_0 is Some && r->Ok_0->0@ == location@ && final(self).phase
                        == AppendPhase::WritingSegment && final(self).entry is Some
                        && final(self).entry->0.segment_location@ == location@
                        && final(self).entry->0@.segment_info.blocks == metas && is_summary_of(
                        final(self).entry->0@.segment_info.summary,
                        metas,
                    )
                }
            }),
    {
        if self.phase != AppendPhase::Polling {
            return Err(out_of_turn());
        }
        if self.blocks.len() == 0 {
            self.phase = AppendPhase::Done;
            return Ok(None);
        }
        let blocks = crate::fuse::meta::clone_block_metas(&self.blocks);
        match SegmentInfo::try_create(blocks) {
            Ok(segment) => {
                self.entry = Some(AppendOperationLogEntry::new(location.clone(), segment));
                self.phase = AppendPhase::WritingSegment;
                Ok(Some(location))
            },
            Err(e) => {
                self.phase = AppendPhase::Failed;
                Err(e)
            },
        }
    }

    /// The stream has ended. A location under a fresh name is chosen for the
    /// segment. Apart from the choice of the name, the step is
    /// `on_end_of_stream_at`.
    pub fn on_end_of_stream(&mut self) -> (r: Result<Option<String>, ErrorCode>)
        requires
            old(self).wf(),
        ensures
            final(self).wf(),
            final(self).blocks == old(self).blocks,
            final(self).pending == old(self).pending,
            old(self).phase != AppendPhase::Polling ==> r is Err && r->Err_0.kind
                == ErrorKind::Internal && *final(self) == *old(self),
            old(self).phase == AppendPhase::Polling ==> ({
                let metas = block_metas_view(old(self).blocks@);
                if metas.len() == 0 {
                    r is Ok && r->Ok_0 is None && final(self).phase == AppendPhase::Done
                        && final(self).entry is None
                } else if !uniform(metas) {
                    r is Err && r->Err_0.kind == ErrorKind::BadArguments && final(self).phase
                        == AppendPhase::Failed && final(self).entry is None
                } else if !sums_fit(metas) {
                    r is Err && r->Err_0.kind == ErrorKind::Internal && final(self).phase
                        == AppendPhase::Failed && final(self).entry is None
                } else {
                    r is Ok && r->Ok_0 is Some && final(self).phase == AppendPhase::WritingSegment
                        && final(self).entry is Some && final(self).entry->0.segment_location@
                        == r->Ok_0->0@ && final(self).entry->0@.segment_info.blocks == metas
                        && is_summary_of(final(self).entry->0@.segment_info.summary, metas) && (
                    exists|uuid: Seq<char>|
                        is_simple_uuid(uuid) && r->Ok_0->0@ == #[trigger] segment_location(uuid))
                }
            }),
    {
        if self.phase != AppendPhase::Polling {
            return Err(out_of_turn());
        }
        let location = gen_segment_info_location();
        self.on_end_of_stream_at(location)
    }

    /// The segment that is to be written, while the append waits for that
    /// write.
    pub fn segment_to_write(&self) -> (s: Option<&SegmentInfo>)
        requires
            self.wf(),
        ensures
            self.phase == AppendPhase::WritingSegment ==> s is Some && *s->0
                == self.entry->0.segment_info,
            self.phase != AppendPhase::WritingSegment ==> s is None,
    {
        if self.phase != AppendPhase::WritingSegment {
            return None;
        }
        match &self.entry {
            Some(entry) => Some(&entry.segment_info),
            None => None,
        }
    }

    /// The segment has been written: the append is done. In a phase other
    /// than `WritingSegment` the step is refused and changes nothing.
    pub fn on_segment_written(&mut self) -> (r: Result<(), ErrorCode>)
        requires
            old(self).wf(),
        ensures
            final(self).wf(),
            final(self).blocks == old(self).blocks,
            final(self).pending == old(self).pending,
            final(self).entry == old(self).entry,
            old(self).phase == AppendPhase::WritingSegment ==> r is Ok && final(self).phase
                == AppendPhase::Done,
            old(self).phase != AppendPhase::WritingSegment ==> r is Err && r->Err_0.kind
                == ErrorKind::Internal && final(self).phase == old(self).phase,
    {
        if self.phase != AppendPhase::WritingSegment {
            return Err(out_of_turn());
        }
        self.phase = AppendPhase::Done;
        Ok(())
    }

    /// The stream or a write has failed. An append that is not done yet is
    /// given up: nothing more is written, nothing written is taken back, and
    /// the append has no entry to show. A finished append stays as it is.
    pub fn on_failure(&mut self)
        requires
            old(self).wf(),
        ensures
            final(self).wf(),
            final(self).blocks == old(self).blocks,
            old(self).phase == AppendPhase::Done ==> *final(self) == *old(self),
            old(self).phase != AppendPhase::Done ==> final(self).phase == AppendPhase::Failed
                && final(self).pending is None && final(self).entry is None,
    {
        if self.phase != AppendPhase::Done {
            self.phase = AppendPhase::Failed;
            self.pending = None;
            self.entry = None;
        }
    }

    /// The outcome of the append: its log entry where it wrote a segment,
    /// nothing where the stream was empty. An append that is not done has no
    /// outcome yet, and a failed one has none at all.
    pub fn finish(self) -> (r: Result<Option<AppendOperationLogEntry>, ErrorCode>)
        requires
            self.wf(),
        ensures
            self.phase == AppendPhase::Done ==> r is Ok && r->Ok_0 == self.entry,
            self.phase != AppendPhase::Done ==> r is Err && r->Err_0.kind == ErrorKind::Internal,
    {
        if self.phase != AppendPhase::Done {
            return Err(out_of_turn());
        }
        Ok(self.entry)
    }
}

} // verus!
