//! What a plan hands to the engine: partitions, statistics, and the source
//! that a read names.

use vstd::prelude::*;
use crate::catalogs::table_info::TableInfo;
use crate::datavalues::data_value::DataValue;

verus! {

/// A read descriptor: the rows of one block, and the columns wanted of
/// them. Workers take partitions from the queue of the query.
#[derive(Debug, PartialEq, Eq)]
pub struct Part {
    /// Where the block is stored.
    pub location: String,
    /// The first row to read.
    pub row_start: u64,
    /// The row behind the last one to read.
    pub row_end: u64,
    /// The ids of the columns to read, in the order wanted.
    pub projection: Vec<usize>,
}

/// The mathematical content of a `Part`.
pub struct PartSpec {
    pub location: Seq<char>,
    pub row_start: u64,
    pub row_end: u64,
    pub projection: Seq<usize>,
}

impl View for Part {
    type V = PartSpec;

    open spec fn view(&self) -> PartSpec {
        PartSpec {
            location: self.location@,
            row_start: self.row_start,
            row_end: self.row_end,
            projection: self.projection@,
        }
    }
}

impl Clone for Part {
    fn clone(&self) -> (r: Self)
        ensures
            r@ == self@,
    {
        Part {
            location: self.location.clone(),
            row_start: self.row_start,
            row_end: self.row_end,
            projection: self.projection.clone(),
        }
    }
}

/// A list of partitions.
pub type Partitions = Vec<Part>;

/// The views of the partitions, in their order.
pub open spec fn parts_view(parts: Seq<Part>) -> Seq<PartSpec> {
    Seq::new(parts.len(), |i: int| parts[i]@)
}

/// What a read is expected to scan.
#[derive(Clone, Copy, Debug, PartialEq, Eq, Structural)]
pub struct Statistics {
    pub read_rows: usize,
    pub read_bytes: usize,
    pub is_exact: bool,
}

impl Statistics {
    /// Nothing to scan, and that not known exactly.
    pub fn default() -> (s: Statistics)
        ensures
            s == (Statistics { read_rows: 0, read_bytes: 0, is_exact: false }),
    {
        Statistics { read_rows: 0, read_bytes: 0, is_exact: false }
    }

    pub fn new_exact(read_rows: usize, read_bytes: usize) -> (s: Statistics)
        ensures
            s == (Statistics { read_rows, read_bytes, is_exact: true }),
    {
        Statistics { read_rows, read_bytes, is_exact: true }
    }
}

/// The source of a read: a table of the catalog, or, where arguments are
/// given, the table function of that name applied to them.
#[derive(Debug, PartialEq, Eq)]
pub struct ReadDataSourcePlan {
    pub table_info: TableInfo,
    pub parts: Partitions,
    pub statistics: Statistics,
    pub description: String,
    pub tbl_args: Option<Vec<DataValue>>,
}

} // verus!
