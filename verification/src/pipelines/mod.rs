//! The processors of a pipeline.

pub mod transform_sink;
