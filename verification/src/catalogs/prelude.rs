//! The database engines that every node knows.

use vstd::prelude::*;
use crate::catalogs::database_engine_registry::DatabaseEngineRegistry;
use crate::catalogs::database_engine_registry::duplicate_message;
use crate::errors::ErrorCode;
use crate::errors::ErrorKind;
use crate::text::upper;

verus! {

/// The database engines that are built in.
#[derive(Clone, Copy, Debug, PartialEq, Eq, Structural)]
pub enum DatabaseEngine {
    /// The default engine, whose tables are kept in the Fuse format.
    Fuse,
    /// The engine that shows the data of GitHub as tables, for reading.
    Github,
}

/// Registers the built-in engines: `DEFAULT` and `GITHUB`. Refused with
/// `AlreadyExists` where one of the two names is taken; `DEFAULT` is
/// registered first, and stays registered where only `GITHUB` is refused.
pub fn register_database_engines(registry: &mut DatabaseEngineRegistry<DatabaseEngine>) -> (r:
    Result<(), ErrorCode>)
    requires
        old(registry).wf(),
    ensures
        final(registry).wf(),
        old(registry)@.dom().contains(upper("DEFAULT"@)) ==> r is Err && r->Err_0.kind
            == ErrorKind::AlreadyExists && r->Err_0.message@ == duplicate_message("DEFAULT"@)
            && final(registry).engines == old(registry).engines,
        !old(registry)@.dom().contains(upper("DEFAULT"@)) && old(registry)@.dom().contains(
            upper("GITHUB"@),
        ) ==> r is Err && r->Err_0.kind == ErrorKind::AlreadyExists && r->Err_0.message@
            == duplicate_message("GITHUB"@) && final(registry)@ == old(registry)@.insert(
            upper("DEFAULT"@),
            DatabaseEngine::Fuse,
        ),
        !old(registry)@.dom().contains(upper("DEFAULT"@)) && !old(registry)@.dom().contains(
            upper("GITHUB"@),
        ) ==> r is Ok && final(registry)@ == old(registry)@.insert(
            upper("DEFAULT"@),
            DatabaseEngine::Fuse,
        ).insert(upper("GITHUB"@), DatabaseEngine::Github),
{
    proof {
        reveal_strlit("DEFAULT");
        reveal_strlit("GITHUB");
        assert(upper("DEFAULT"@)[0] == 'D');
        assert(upper("GITHUB"@)[0] == 'G');
    }
    match registry.register("DEFAULT", DatabaseEngine::Fuse) {
        Ok(()) => {},
        Err(e) => {
            return Err(e);
        },
    }
    registry.register("GITHUB", DatabaseEngine::Github)
}

} // verus!
