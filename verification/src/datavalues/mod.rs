//! Data types, scalar values, columns and schemas.

pub mod data_array;
pub mod data_column;
pub mod data_schema;
pub mod data_type;
pub mod data_value;
pub mod decimal;
pub mod display;
pub mod parse;
pub mod value_order;
