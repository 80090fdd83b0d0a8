//! Tables as the catalog knows them, and the registry of database engines.

pub mod database_engine_registry;
pub mod prelude;
pub mod table_engine;
pub mod table_info;
