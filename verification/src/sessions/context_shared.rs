//! What the contexts of one query share.

use vstd::prelude::*;
use crate::catalogs::table_info::TableInfo;
use crate::catalogs::table_info::TableInfoSpec;
use crate::configs::Config;
use crate::datablocks::data_block::DataBlock;
use crate::datavalues::decimal::decimal_string;
use crate::datavalues::decimal::decimal_text;
use crate::errors::ErrorCode;
use crate::errors::ErrorKind;
use crate::sessions::data_accessor::DalContext;
use crate::sessions::progress::Progress;

verus! {

/// A table that the query has resolved, under the names it was asked for.
#[derive(Debug)]
pub struct ResolvedTable {
    pub database: String,
    pub table: String,
    pub info: TableInfo,
}

/// The state that all contexts of one query share.
#[derive(Debug)]
pub struct QueryContextShared {
    pub conf: Config,
    pub progress: Progress,
    /// The record of the reads and writes of the query.
    pub dal_ctx: DalContext,
    /// The number of contexts that are alive.
    pub ref_count: usize,
    /// The number of the next subquery.
    pub subquery_index: usize,
    pub init_query_id: String,
    pub current_database: String,
    pub current_user: String,
    pub query_str: String,
    /// The tables resolved so far, each under one pair of names.
    pub tables_refs: Vec<ResolvedTable>,
    /// How many source streams have registered to be aborted.
    pub abort_handles: usize,
    /// Whether the query has been aborted.
    pub aborted: bool,
    /// Whether the resources of the session have been released.
    pub destroyed: bool,
}

/// The text of the failure to use a database that does not exist.
pub open spec fn unknown_database_message(name: Seq<char>) -> Seq<char> {
    "Cannot USE '"@ + name + "', because the '"@ + name + "' doesn't exist"@
}

/// The name of the subquery with the given number.
pub open spec fn subquery_name(index: usize) -> Seq<char> {
    "_subquery_"@ + decimal_text(index as int)
}

/// What a stream that can be aborted does when it is polled.
#[derive(Clone, Copy, Debug, PartialEq, Eq, Structural)]
pub enum PollStep {
    /// Poll the stream behind it and hand on what comes.
    Forward,
    /// End with the error `Aborted`, without polling further.
    Abort,
}

impl QueryContextShared {
    /// The place in the list of resolved tables of the pair of names.
    pub open spec fn position(&self, database: Seq<char>, table: Seq<char>) -> Option<int> {
        if exists|i: int|
            0 <= i < self.tables_refs@.len() && (#[trigger] self.tables_refs@[i]).database@
                == database && self.tables_refs@[i].table@ == table {
            Some(
                choose|i: int|
                    0 <= i < self.tables_refs@.len() && (#[trigger] self.tables_refs@[i]).database@
                        == database && self.tables_refs@[i].table@ == table,
            )
        } else {
            None
        }
    }

    /// The table that the query has resolved under the pair of names.
    pub open spec fn resolved(&self, database: Seq<char>, table: Seq<char>) -> Option<
        TableInfoSpec,
    > {
        match self.position(database, table) {
            Some(i) => Some(self.tables_refs@[i].info@),
            None => None,
        }
    }

    /// No pair of names is resolved twice.
    pub open spec fn wf(&self) -> bool {
        forall|i: int, j: int|
            0 <= i < j < self.tables_refs@.len() ==> !((#[trigger] self.tables_refs@[i]).database@
                == (#[trigger] self.tables_refs@[j]).database@ && self.tables_refs@[i].table@
                == self.tables_refs@[j].table@)
    }

    /// In a well-formed state a resolved table is found at its own place.
    pub proof fn lemma_position(&self, i: int)
        requires
            self.wf(),
            0 <= i < self.tables_refs@.len(),
        ensures
            self.position(self.tables_refs@[i].database@, self.tables_refs@[i].table@) == Some(i),
    {
        let j = self.position(self.tables_refs@[i].database@, self.tables_refs@[i].table@)->0;
        assert(0 <= j < self.tables_refs@.len() && self.tables_refs@[j].database@
            == self.tables_refs@[i].database@ && self.tables_refs@[j].table@
            == self.tables_refs@[i].table@);
        if j < i {
            assert(!(self.tables_refs@[j].database@ == self.tables_refs@[i].database@
                && self.tables_refs@[j].table@ == self.tables_refs@[i].table@));
        } else if i < j {
            assert(!(self.tables_refs@[i].database@ == self.tables_refs@[j].database@
                && self.tables_refs@[i].table@ == self.tables_refs@[j].table@));
        }
    }

    /// The shared state of a new query: no context alive, nothing resolved,
    /// nothing read.
    pub fn try_create(conf: Config, query_id: &str, database: &str, user: &str) -> (s:
        QueryContextShared)
        ensures
            s.wf(),
            s.conf == conf,
            s.ref_count == 0,
            s.subquery_index == 0,
            s.init_query_id@ == query_id@,
            s.current_database@ == database@,
            s.current_user@ == user@,
            s.tables_refs@.len() == 0,
            s.progress.read_rows == 0 && s.progress.read_bytes == 0
                && s.progress.total_rows_to_read == 0,
            s.abort_handles == 0,
            !s.aborted,
            !s.destroyed,
    {
        QueryContextShared {
            conf,
            progress: Progress::create(),
            dal_ctx: DalContext::new(),
            ref_count: 0,
            subquery_index: 0,
            init_query_id: String::from_str(query_id),
            current_database: String::from_str(database),
            current_user: String::from_str(user),
            query_str: String::new(),
            tables_refs: Vec::new(),
            abort_handles: 0,
            aborted: false,
            destroyed: false,
        }
    }

    /// One more context is alive. The count wraps around where it passes
    /// the greatest number that it can hold.
    pub fn increment_ref_count(&mut self)
        ensures
            *final(self) == (QueryContextShared {
                ref_count: old(self).ref_count.wrapping_add(1),
                ..*old(self)
            }),
    {
        self.ref_count = self.ref_count.wrapping_add(1);
    }

    /// One context less is alive. Where it was the last one, the resources
    /// of the session are released, and `true` comes back.
    pub fn destroy_context_ref(&mut self) -> (last: bool)
        ensures
            last == (old(self).ref_count == 1),
            *final(self) == (QueryContextShared {
                ref_count: old(self).ref_count.wrapping_sub(1),
                destroyed: old(self).destroyed || last,
                ..*old(self)
            }),
    {
        let before = self.ref_count;
        self.ref_count = self.ref_count.wrapping_sub(1);
        if before == 1 {
            self.destroyed = true;
            true
        } else {
            false
        }
    }

    pub fn get_current_database(&self) -> (name: String)
        ensures
            name@ == self.current_database@,
    {
        self.current_database.clone()
    }

    pub fn get_current_user(&self) -> (r: Result<String, ErrorCode>)
        ensures
            r is Ok,
            r->Ok_0@ == self.current_user@,
    {
        Ok(self.current_user.clone())
    }

    /// Makes `new_database_name` the current database, where the catalog
    /// has found a database of that name (`found`). Where it has not, the
    /// current database stays, and the failure is `UnknownDatabase`.
    pub fn set_current_database(&mut self, new_database_name: String, found: bool) -> (r: Result<
        (),
        ErrorCode,
    >)
        ensures
            found ==> r is Ok && final(self).current_database@ == new_database_name@,
            !found ==> r is Err && r->Err_0.kind == ErrorKind::UnknownDatabase && r->Err_0.message@
                == unknown_database_message(new_database_name@) && final(self).current_database
                == old(self).current_database,
            *final(self) == (QueryContextShared {
                current_database: final(self).current_database,
                ..*old(self)
            }),
    {
        if found {
            self.current_database = new_database_name;
            Ok(())
        } else {
            let mut message = String::from_str("Cannot USE '");
            message.append(new_database_name.as_str());
            message.append("', because the '");
            message.append(new_database_name.as_str());
            message.append("' doesn't exist");
            Err(ErrorCode::create(ErrorKind::UnknownDatabase, message))
        }
    }

    /// The id that the query was given when it was accepted.
    pub fn get_id(&self) -> (id: String)
        ensures
            id@ == self.init_query_id@,
    {
        self.init_query_id.clone()
    }

    /// Puts down the text of the query.
    pub fn attach_query_str(&mut self, query: &str)
        ensures
            final(self).query_str@ == query@,
            *final(self) == (QueryContextShared { query_str: final(self).query_str, ..*old(self) }),
    {
        self.query_str = String::from_str(query);
    }

    pub fn get_config(&self) -> (conf: Config)
        ensures
            conf@ == self.conf@,
    {
        self.conf.clone()
    }

    /// A name for the next subquery. Each call gives the next number; the
    /// numbers wrap around where they pass the greatest that can be held.
    pub fn get_subquery_name(&mut self) -> (name: String)
        ensures
            name@ == subquery_name(old(self).subquery_index),
            *final(self) == (QueryContextShared {
                subquery_index: old(self).subquery_index.wrapping_add(1),
                ..*old(self)
            }),
    {
        let index = self.subquery_index;
        self.subquery_index = self.subquery_index.wrapping_add(1);
        let mut name = String::from_str("_subquery_");
        let number = decimal_string(false, index as u64);
        name.append(number.as_str());
        name
    }

    /// The place of the table resolved under the pair of names.
    fn find_table(&self, database: &str, table: &str) -> (r: Option<usize>)
        ensures
            r is Some ==> r->0 < self.tables_refs@.len() && self.tables_refs@[r->0 as int].database@
                == database@ && self.tables_refs@[r->0 as int].table@ == table@,
            r is None ==> forall|i: int|
                0 <= i < self.tables_refs@.len() ==> !((#[trigger] self.tables_refs@[i]).database@
                    == database@ && self.tables_refs@[i].table@ == table@),
    {
        let wanted_database = String::from_str(database);
        let wanted_table = String::from_str(table);
        let mut i: usize = 0;
        while i < self.tables_refs.len()
            invariant
                i <= self.tables_refs.len(),
                wanted_database@ == database@,
                wanted_table@ == table@,
                forall|j: int|
                    0 <= j < i ==> !((#[trigger] self.tables_refs@[j]).database@ == database@
                        && self.tables_refs@[j].table@ == table@),
            decreases self.tables_refs.len() - i,
        {
            if self.tables_refs[i].database == wanted_database && self.tables_refs[i].table
                == wanted_table {
                return Some(i);
            }
            i = i + 1;
        }
        None
    }

    /// The table that the query has resolved under the pair of names, if it
    /// has resolved one. Where nothing comes back the caller asks the
    /// catalog and hands what it gets to `cache_table`.
    pub fn cached_table(&self, database: &str, table: &str) -> (r: Option<&TableInfo>)
        requires
            self.wf(),
        ensures
            match self.resolved(database@, table@) {
                Some(info) => r is Some && r->0@ == info,
                None => r is None,
            },
    {
        match self.find_table(database, table) {
            Some(i) => {
                proof {
                    self.lemma_position(i as int);
                }
                Some(&self.tables_refs[i].info)
            },
            None => {
                proof {
                    if self.position(database@, table@) is Some {
                        let j = self.position(database@, table@)->0;
                        assert(self.tables_refs@[j].database@ == database@);
                    }
                }
                None
            },
        }
    }

    /// Takes note of what the catalog has resolved under the pair of names,
    /// and hands back the table that the query uses under them from now on:
    /// the one resolved first. A later answer of the catalog for the same
    /// names is dropped, so that the query sees one table throughout.
    pub fn cache_table(&mut self, database: &str, table: &str, info: TableInfo) -> (r: TableInfo)
        requires
            old(self).wf(),
        ensures
            final(self).wf(),
            *final(self) == (QueryContextShared {
                tables_refs: final(self).tables_refs,
                ..*old(self)
            }),
            final(self).resolved(database@, table@) == Some(r@),
            r@ == match old(self).resolved(database@, table@) {
                Some(first) => first,
                None => info@,
            },
            forall|d: Seq<char>, t: Seq<char>|
                !(d == database@ && t == table@) ==> #[trigger] final(self).resolved(d, t) == old(
                    self,
                ).resolved(d, t),
    {
        match self.find_table(database, table) {
            Some(i) => {
                proof {
                    self.lemma_position(i as int);
                }
                self.tables_refs[i].info.clone()
            },
            None => {
                proof {
                    if self.position(database@, table@) is Some {
                        let j = self.position(database@, table@)->0;
                        assert(self.tables_refs@[j].database@ == database@);
                    }
                }
                let kept = info.clone();
                self.tables_refs.push(
                    ResolvedTable {
                        database: String::from_str(database),
                        table: String::from_str(table),
                        info,
                    },
                );
                proof {
                    let n = old(self).tables_refs@.len() as int;
                    assert forall|i: int, j: int| 0 <= i < j < self.tables_refs@.len() implies !((
                    #[trigger] self.tables_refs@[i]).database@ == (
                    #[trigger] self.tables_refs@[j]).database@ && self.tables_refs@[i].table@
                        == self.tables_refs@[j].table@) by {
                        assert(self.tables_refs@[i] == old(self).tables_refs@[i]);
                        if j < n {
                            assert(self.tables_refs@[j] == old(self).tables_refs@[j]);
                        }
                    }
                    self.lemma_position(n);
                    assert forall|d: Seq<char>, t: Seq<char>|
                        !(d == database@ && t == table@) implies #[trigger] self.resolved(d, t)
                        == old(self).resolved(d, t) by {
                        if old(self).position(d, t) is Some {
                            let j = old(self).position(d, t)->0;
                            assert(self.tables_refs@[j] == old(self).tables_refs@[j]);
                            old(self).lemma_position(j);
                            self.lemma_position(j);
                        } else if self.position(d, t) is Some {
                            let j = self.position(d, t)->0;
                            assert(self.tables_refs@[j].database@ == d && self.tables_refs@[j].table@
                                == t);
                            assert(j < n);
                            assert(self.tables_refs@[j] == old(self).tables_refs@[j]);
                        }
                    }
                }
                kept
            },
        }
    }

    /// A source stream registers to be aborted with the query. The number
    /// of registered streams wraps around where it passes the greatest
    /// number that can be held.
    pub fn add_source_abort_handle(&mut self)
        ensures
            *final(self) == (QueryContextShared {
                abort_handles: old(self).abort_handles.wrapping_add(1),
                ..*old(self)
            }),
    {
        self.abort_handles = self.abort_handles.wrapping_add(1);
    }

    /// Aborts the query: from now on every stream that can be aborted ends
    /// when it is polled, and a block that arrives for it is dropped.
    pub fn kill(&mut self)
        ensures
            *final(self) == (QueryContextShared { aborted: true, ..*old(self) }),
    {
        self.aborted = true;
    }

    pub fn is_aborted(&self) -> (b: bool)
        ensures
            b == self.aborted,
    {
        self.aborted
    }

    /// What a stream that can be aborted does when it is polled: it ends
    /// with `Aborted` once the query has been aborted, and hands on what the
    /// stream behind it yields until then.
    pub fn poll_step(&self) -> (r: Result<PollStep, ErrorCode>)
        ensures
            self.aborted ==> r is Err && r->Err_0.kind == ErrorKind::Aborted,
            !self.aborted ==> r == Ok::<PollStep, ErrorCode>(PollStep::Forward),
    {
        if self.aborted {
            Err(ErrorCode::create(ErrorKind::Aborted, String::from_str("the query was aborted")))
        } else {
            Ok(PollStep::Forward)
        }
    }

    /// What a stream that can be aborted does with a block that arrives
    /// from the stream behind it: it hands the block on as it is, unless
    /// the query has been aborted in the meantime. Then the block is
    /// dropped, and the stream ends with `Aborted`: a read that was under
    /// way when the query was aborted may finish, but what it has read
    /// reaches nobody.
    pub fn on_arrival(&self, block: DataBlock) -> (r: Result<DataBlock, ErrorCode>)
        ensures
            self.aborted ==> r is Err && r->Err_0.kind == ErrorKind::Aborted,
            !self.aborted ==> r is Ok && r->Ok_0 == block,
    {
        if self.aborted {
            Err(ErrorCode::create(ErrorKind::Aborted, String::from_str("the query was aborted")))
        } else {
            Ok(block)
        }
    }
}

} // verus!
