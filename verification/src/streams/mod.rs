//! Streams of blocks: what each hands on when it is polled.

pub mod cast_stream;
pub mod data_block_stream;
