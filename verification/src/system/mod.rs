//! The tables of the database `system`.

pub mod users_table;
