//! The Fuse table: what a read of it scans.

use vstd::prelude::*;
use crate::catalogs::table_info::option_value;
use crate::catalogs::table_info::TableInfo;
use crate::fuse::index::FilterSpec;
use crate::fuse::index::RangeFilter;
use crate::fuse::index::skips;
use crate::fuse::meta::block_metas_view;
use crate::fuse::meta::BlockMetaSpec;
use crate::fuse::meta::SegmentInfo;
use crate::fuse::meta::SegmentSpec;
use crate::planners::Part;
use crate::planners::Partitions;
use crate::planners::parts_view;
use crate::planners::PartSpec;
use crate::sequences::lemma_filter_push;

verus! {

/// A table in the Fuse format.
#[derive(Debug, PartialEq, Eq)]
pub struct FuseTable {
    pub table_info: TableInfo,
}

/// The partition that reads all rows of a block, with the given columns.
pub open spec fn part_of(block: BlockMetaSpec, projection: Seq<usize>) -> PartSpec {
    PartSpec { location: block.location, row_start: 0, row_end: block.row_count, projection }
}

/// The partitions of the blocks, one for each, in their order.
pub open spec fn parts_of_blocks(blocks: Seq<BlockMetaSpec>, projection: Seq<usize>) -> Seq<
    PartSpec,
> {
    Seq::new(blocks.len(), |i: int| part_of(blocks[i], projection))
}

/// The view of a filter that may be absent.
pub open spec fn filter_view(filter: Option<&RangeFilter>) -> Option<FilterSpec> {
    match filter {
        Some(f) => Some(f@),
        None => None,
    }
}

/// The blocks that a read under the filter does not pass over, in their
/// order; all blocks where there is no filter.
pub open spec fn kept_blocks(blocks: Seq<BlockMetaSpec>, filter: Option<FilterSpec>) -> Seq<
    BlockMetaSpec,
> {
    blocks.filter(|block: BlockMetaSpec| !(filter is Some && skips(filter->0, block)))
}

/// The partitions of the segments: those of the first segment, then those
/// of the second, and so on, each in the order of its blocks, without the
/// blocks that the filter allows to pass over.
pub open spec fn parts_of_segments(
    segments: Seq<SegmentSpec>,
    projection: Seq<usize>,
    filter: Option<FilterSpec>,
) -> Seq<PartSpec>
    decreases segments.len(),
{
    if segments.len() == 0 {
        Seq::empty()
    } else {
        parts_of_segments(segments.drop_last(), projection, filter) + parts_of_blocks(
            kept_blocks(segments.last().blocks, filter),
            projection,
        )
    }
}

/// The views of the segments, in their order.
pub open spec fn segments_view(segments: Seq<SegmentInfo>) -> Seq<SegmentSpec> {
    Seq::new(segments.len(), |i: int| segments[i]@)
}

impl FuseTable {
    pub fn create(table_info: TableInfo) -> (table: FuseTable)
        ensures
            table.table_info == table_info,
    {
        FuseTable { table_info }
    }

    pub fn get_table_info(&self) -> (info: &TableInfo)
        ensures
            info == &self.table_info,
    {
        &self.table_info
    }

    /// Where the current snapshot of the table is stored. A table without
    /// one is empty: a read of it yields nothing.
    pub fn snapshot_location(&self) -> (r: Option<&String>)
        ensures
            match option_value(self.table_info@.options, "SNAPSHOT_LOCATION"@) {
                Some(v) => r is Some && r->0@ == v,
                None => r is None,
            },
    {
        self.table_info.snapshot_location()
    }

    /// The partitions that a read of the given segments scans: one for each
    /// block, in the order of the segments and of the blocks in them, but
    /// for the blocks of which the filter tells that none of their rows
    /// meets it. Each partition reads all rows of its block, and of them
    /// the columns of `projection`.
    pub fn read_partitions(
        segments: &Vec<SegmentInfo>,
        projection: &Vec<usize>,
        filter: Option<&RangeFilter>,
    ) -> (parts: Partitions)
        ensures
            parts_view(parts@) == parts_of_segments(
                segments_view(segments@),
                projection@,
                filter_view(filter),
            ),
    {
        let ghost all = segments_view(segments@);
        let ghost by = filter_view(filter);
        let ghost keep = |block: BlockMetaSpec| !(by is Some && skips(by->0, block));
        let mut parts: Vec<Part> = Vec::new();
        let mut s: usize = 0;
        assert(all.take(0) =~= Seq::<SegmentSpec>::empty());
        assert(parts_view(parts@) =~= Seq::<PartSpec>::empty());
        while s < segments.len()
            invariant
                s <= segments.len(),
                all == segments_view(segments@),
                by == filter_view(filter),
                keep == |block: BlockMetaSpec| !(by is Some && skips(by->0, block)),
                parts_view(parts@) == parts_of_segments(all.take(s as int), projection@, by),
            decreases segments.len() - s,
        {
            let segment = &segments[s];
            let ghost done = parts_view(parts@);
            let ghost blocks = all[s as int].blocks;
            assert(segment@ == all[s as int]);
            let mut b: usize = 0;
            proof {
                assert(blocks.take(0) =~= Seq::<BlockMetaSpec>::empty());
                assert(blocks.take(0).filter(keep) =~= Seq::<BlockMetaSpec>::empty());
                assert(done + parts_of_blocks(blocks.take(0).filter(keep), projection@) =~= done);
            }
            while b < segment.blocks.len()
                invariant
                    b <= segment.blocks.len(),
                    blocks == block_metas_view(segment.blocks@),
                    by == filter_view(filter),
                    keep == |block: BlockMetaSpec| !(by is Some && skips(by->0, block)),
                    parts_view(parts@) == done + parts_of_blocks(
                        blocks.take(b as int).filter(keep),
                        projection@,
                    ),
                decreases segment.blocks.len() - b,
            {
                let block = &segment.blocks[b];
                let ghost before = parts_view(parts@);
                let ghost seen = blocks.take(b as int).filter(keep);
                proof {
                    assert(block@ == blocks[b as int]);
                    assert(blocks.take(b + 1) =~= blocks.take(b as int).push(blocks[b as int]));
                    lemma_filter_push(blocks.take(b as int), blocks[b as int], keep);
                }
                let skip = match filter {
                    Some(f) => f.can_skip(block),
                    None => false,
                };
                if !skip {
                    parts.push(
                        Part {
                            location: block.location.clone(),
                            row_start: 0,
                            row_end: block.row_count,
                            projection: projection.clone(),
                        },
                    );
                    proof {
                        assert(parts_view(parts@) =~= before.push(
                            part_of(blocks[b as int], projection@),
                        ));
                        assert(parts_of_blocks(seen.push(blocks[b as int]), projection@)
                            =~= parts_of_blocks(seen, projection@).push(
                            part_of(blocks[b as int], projection@),
                        ));
                        assert(done + parts_of_blocks(seen, projection@).push(
                            part_of(blocks[b as int], projection@),
                        ) =~= (done + parts_of_blocks(seen, projection@)).push(
                            part_of(blocks[b as int], projection@),
                        ));
                    }
                }
                b = b + 1;
            }
            proof {
                assert(blocks.take(segment.blocks.len() as int) =~= blocks);
                assert(all.take(s + 1).drop_last() =~= all.take(s as int));
                assert(all.take(s + 1).last() == all[s as int]);
            }
            s = s + 1;
        }
        assert(all.take(segments.len() as int) =~= all);
        parts
    }
}

} // verus!
