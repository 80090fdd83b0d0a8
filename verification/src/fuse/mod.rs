//! The Fuse table format: snapshots, segments and blocks.

pub mod append;
pub mod col_encoding;
pub mod constants;
pub mod index;
pub mod location_gen;
pub mod meta;
pub mod snapshot;
pub mod statistics;
pub mod summary;
pub mod table;
