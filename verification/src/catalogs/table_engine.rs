//! The engine that serves a table.

use vstd::prelude::*;
use crate::catalogs::database_engine_registry::DatabaseEngineRegistry;
use crate::catalogs::table_info::TableInfo;
use crate::errors::ErrorCode;
use crate::errors::ErrorKind;
use crate::text::upper;

verus! {

/// The text of the failure to find the engine of a table.
pub open spec fn unknown_engine_message(engine: Seq<char>) -> Seq<char> {
    "Unknown table engine "@ + engine
}

/// The factory of the engine that the table names, out of the engines that
/// are registered, whatever the case of the name. A table of an engine that
/// is not registered cannot be built: the failure is `UnknownTable`.
pub fn build_table<'a, F>(engines: &'a DatabaseEngineRegistry<F>, table_info: &TableInfo) -> (r:
    Result<&'a F, ErrorCode>)
    requires
        engines.wf(),
    ensures
        engines@.dom().contains(upper(table_info@.engine)) ==> r is Ok && *r->Ok_0
            == engines@[upper(table_info@.engine)],
        !engines@.dom().contains(upper(table_info@.engine)) ==> r is Err && r->Err_0.kind
            == ErrorKind::UnknownTable && r->Err_0.message@ == unknown_engine_message(
            table_info@.engine,
        ),
{
    match engines.get_database_factory(table_info.engine().as_str()) {
        Some(factory) => Ok(factory),
        None => {
            let mut message = String::from_str("Unknown table engine ");
            message.append(table_info.engine().as_str());
            Err(ErrorCode::create(ErrorKind::UnknownTable, message))
        },
    }
}

} // verus!
