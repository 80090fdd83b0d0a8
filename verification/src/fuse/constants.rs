//! Names that are part of the stored layout.

use vstd::prelude::*;

verus! {

/// The key of the table option that holds the location of the current
/// snapshot.
pub const TBL_OPT_KEY_SNAPSHOT_LOC: &'static str = "SNAPSHOT_LOCATION";

/// The directory of the blocks of a table.
pub const FUSE_TBL_BLOCK_PREFIX: &'static str = "_b";

/// The directory of the segments of a table.
pub const FUSE_TBL_SEGMENT_PREFIX: &'static str = "_sg";

/// The directory of the snapshots of a table.
pub const FUSE_TBL_SNAPSHOT_PREFIX: &'static str = "_ss";

} // verus!
