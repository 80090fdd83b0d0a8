//! Users, their credentials and their privileges.

pub mod user;
pub mod user_info;
pub mod user_manager;
