//! Core of a columnar SQL query engine: the column and block model, the Fuse
//! table format, the engine registry and the per-query context.

pub mod catalogs;
pub mod configs;
pub mod datablocks;
pub mod datavalues;
pub mod errors;
pub mod functions;
pub mod fuse;
pub mod interpreters;
pub mod pipelines;
pub mod planners;
pub mod sequences;
pub mod sessions;
pub mod streams;
pub mod system;
pub mod text;
pub mod users;
