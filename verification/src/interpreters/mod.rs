//! The interpreters: one for each kind of plan.

pub mod interpreter_select;
