//! Blocks: a schema and one column per field.

pub mod data_block;
