//! The state of a query: what its contexts share, and what each holds.

pub mod context;
pub mod context_shared;
pub mod data_accessor;
pub mod progress;
