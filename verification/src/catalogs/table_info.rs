//! The identity and the description of a table.

use vstd::prelude::*;
use crate::datavalues::data_schema::DataSchema;
use crate::datavalues::data_schema::FieldSpec;
use crate::fuse::constants::TBL_OPT_KEY_SNAPSHOT_LOC;

verus! {

/// The identity of a table: its id, and the version of its description.
#[derive(Clone, Copy, Debug, PartialEq, Eq, Structural)]
pub struct TableIdent {
    pub table_id: u64,
    pub version: u64,
}

impl TableIdent {
    pub fn new(table_id: u64, version: u64) -> (ident: TableIdent)
        ensures
            ident == (TableIdent { table_id, version }),
    {
        TableIdent { table_id, version }
    }
}

/// One option of a table: a key and its value.
#[derive(Debug, PartialEq, Eq)]
pub struct TableOption {
    pub key: String,
    pub value: String,
}

/// What a table is made of: its schema, the engine that serves it, and the
/// options of that engine.
#[derive(Debug, PartialEq, Eq)]
pub struct TableMeta {
    pub schema: DataSchema,
    pub engine: String,
    pub options: Vec<TableOption>,
}

/// A table as the catalog knows it.
#[derive(Debug, PartialEq, Eq)]
pub struct TableInfo {
    pub ident: TableIdent,
    /// The table with its database, each in single quotes: `'db'.'table'`.
    pub desc: String,
    pub name: String,
    pub meta: TableMeta,
}

/// The mathematical content of a `TableInfo`.
pub struct TableInfoSpec {
    pub ident: TableIdent,
    pub desc: Seq<char>,
    pub name: Seq<char>,
    pub schema: Seq<FieldSpec>,
    pub engine: Seq<char>,
    pub options: Seq<(Seq<char>, Seq<char>)>,
}

/// The options as pairs of texts, in their order.
pub open spec fn options_view(options: Seq<TableOption>) -> Seq<(Seq<char>, Seq<char>)> {
    Seq::new(options.len(), |i: int| (options[i].key@, options[i].value@))
}

impl View for TableInfo {
    type V = TableInfoSpec;

    open spec fn view(&self) -> TableInfoSpec {
        TableInfoSpec {
            ident: self.ident,
            desc: self.desc@,
            name: self.name@,
            schema: self.meta.schema@,
            engine: self.meta.engine@,
            options: options_view(self.meta.options@),
        }
    }
}

/// The value of the first option with the given key.
pub open spec fn option_value(options: Seq<(Seq<char>, Seq<char>)>, key: Seq<char>) -> Option<
    Seq<char>,
>
    decreases options.len(),
{
    if options.len() == 0 {
        None
    } else if options[0].0 == key {
        Some(options[0].1)
    } else {
        option_value(options.drop_first(), key)
    }
}

/// The description of a table of a database: both names in single quotes,
/// with a dot between them.
pub open spec fn table_desc(database: Seq<char>, table: Seq<char>) -> Seq<char> {
    "'"@ + database + "'.'"@ + table + "'"@
}

impl Clone for TableInfo {
    fn clone(&self) -> (r: Self)
        ensures
            r@ == self@,
    {
        let mut options: Vec<TableOption> = Vec::new();
        let mut i: usize = 0;
        while i < self.meta.options.len()
            invariant
                i <= self.meta.options.len(),
                options.len() == i,
                forall|j: int|
                    0 <= j < i ==> (#[trigger] options@[j]).key@ == self.meta.options@[j].key@
                        && options@[j].value@ == self.meta.options@[j].value@,
            decreases self.meta.options.len() - i,
        {
            options.push(
                TableOption {
                    key: self.meta.options[i].key.clone(),
                    value: self.meta.options[i].value.clone(),
                },
            );
            i = i + 1;
        }
        let r = TableInfo {
            ident: self.ident,
            desc: self.desc.clone(),
            name: self.name.clone(),
            meta: TableMeta {
                schema: self.meta.schema.clone(),
                engine: self.meta.engine.clone(),
                options,
            },
        };
        assert(r@.options =~= self@.options);
        r
    }
}

impl TableInfo {
    /// The table `table` of the database `database`, without options.
    pub fn simple(database: &str, table: &str, ident: TableIdent, schema: DataSchema, engine: &str) -> (info:
        TableInfo)
        ensures
            info@ == (TableInfoSpec {
                ident,
                desc: table_desc(database@, table@),
                name: table@,
                schema: schema@,
                engine: engine@,
                options: Seq::<(Seq<char>, Seq<char>)>::empty(),
            }),
    {
        let mut desc = String::from_str("'");
        desc.append(database);
        desc.append("'.'");
        desc.append(table);
        desc.append("'");
        let info = TableInfo {
            ident,
            desc,
            name: String::from_str(table),
            meta: TableMeta { schema, engine: String::from_str(engine), options: Vec::new() },
        };
        assert(info@.options =~= Seq::<(Seq<char>, Seq<char>)>::empty());
        info
    }

    pub fn schema(&self) -> (s: &DataSchema)
        ensures
            s == &self.meta.schema,
    {
        &self.meta.schema
    }

    pub fn engine(&self) -> (s: &String)
        ensures
            s == &self.meta.engine,
    {
        &self.meta.engine
    }

    /// The value of the first option with the given key.
    pub fn option(&self, key: &str) -> (r: Option<&String>)
        ensures
            match option_value(self@.options, key@) {
                Some(v) => r is Some && r->0@ == v,
                None => r is None,
            },
    {
        let wanted = String::from_str(key);
        let ghost all = self@.options;
        let mut i: usize = 0;
        assert(all.skip(0) =~= all);
        while i < self.meta.options.len()
            invariant
                i <= self.meta.options.len(),
                wanted@ == key@,
                all == self@.options,
                option_value(all, key@) == option_value(all.skip(i as int), key@),
            decreases self.meta.options.len() - i,
        {
            let ghost rest = all.skip(i as int);
            assert(rest[0] == all[i as int]);
            assert(rest.drop_first() =~= all.skip(i + 1));
            if self.meta.options[i].key == wanted {
                return Some(&self.meta.options[i].value);
            }
            i = i + 1;
        }
        None
    }

    /// Where the current snapshot of the table is stored; nothing for a
    /// table that holds no snapshot yet.
    pub fn snapshot_location(&self) -> (r: Option<&String>)
        ensures
            match option_value(self@.options, "SNAPSHOT_LOCATION"@) {
                Some(v) => r is Some && r->0@ == v,
                None => r is None,
            },
    {
        self.option(TBL_OPT_KEY_SNAPSHOT_LOC)
    }

    /// Sets the option `key` to `value`: the first option of that key gets
    /// the value, and where there is none the option is added at the end.
    pub fn set_option(&mut self, key: &str, value: &str)
        ensures
            final(self).ident == old(self).ident,
            final(self)@.desc == old(self)@.desc,
            final(self)@.name == old(self)@.name,
            final(self)@.schema == old(self)@.schema,
            final(self)@.engine == old(self)@.engine,
            option_value(final(self)@.options, key@) == Some(value@),
            forall|other: Seq<char>|
                other != key@ ==> option_value(final(self)@.options, other) == option_value(
                    old(self)@.options,
                    other,
                ),
    {
        let wanted = String::from_str(key);
        let ghost before = self@.options;
        let mut i: usize = 0;
        while i < self.meta.options.len()
            invariant
                i <= self.meta.options.len(),
                wanted@ == key@,
                *self == *old(self),
                before == self@.options,
                forall|j: int| 0 <= j < i ==> (#[trigger] before[j]).0 != key@,
            decreases self.meta.options.len() - i,
        {
            if self.meta.options[i].key == wanted {
                let mut options: Vec<TableOption> = Vec::new();
                core::mem::swap(&mut options, &mut self.meta.options);
                options[i].value = String::from_str(value);
                core::mem::swap(&mut options, &mut self.meta.options);
                proof {
                    let after = self@.options;
                    assert(after =~= before.update(i as int, (key@, value@)));
                    assert forall|probe: Seq<char>|
                        option_value(after, probe) == if probe == key@ {
                            Some(value@)
                        } else {
                            option_value(before, probe)
                        } by {
                        lemma_option_update(before, i as int, key@, value@, probe);
                    }
                }
                return ;
            }
            i = i + 1;
        }
        self.meta.options.push(
            TableOption { key: String::from_str(key), value: String::from_str(value) },
        );
        proof {
            let after = self@.options;
            assert(after =~= before.push((key@, value@)));
            assert forall|probe: Seq<char>|
                option_value(after, probe) == if probe == key@ {
                    Some(value@)
                } else {
                    option_value(before, probe)
                } by {
                lemma_option_push(before, key@, value@, probe);
            }
        }
    }
}

/// Giving the first option of a key a new value changes what that key
/// yields and nothing else.
pub proof fn lemma_option_update(
    options: Seq<(Seq<char>, Seq<char>)>,
    i: int,
    key: Seq<char>,
    value: Seq<char>,
    probe: Seq<char>,
)
    requires
        0 <= i < options.len(),
        options[i].0 == key,
        forall|j: int| 0 <= j < i ==> (#[trigger] options[j]).0 != key,
    ensures
        option_value(options.update(i, (key, value)), probe) == if probe == key {
            Some(value)
        } else {
            option_value(options, probe)
        },
    decreases options.len(),
{
    let after = options.update(i, (key, value));
    if i == 0 {
        assert(after.drop_first() =~= options.drop_first());
    } else {
        assert(options[0].0 != key);
        assert(after[0] == options[0]);
        assert(after.drop_first() =~= options.drop_first().update(i - 1, (key, value)));
        assert forall|j: int| 0 <= j < i - 1 implies (#[trigger] options.drop_first()[j]).0 != key by {
            assert(options[j + 1].0 != key);
        }
        lemma_option_update(options.drop_first(), i - 1, key, value, probe);
    }
}

/// Adding an option of a key that no option has changes what that key
/// yields and nothing else.
pub proof fn lemma_option_push(
    options: Seq<(Seq<char>, Seq<char>)>,
    key: Seq<char>,
    value: Seq<char>,
    probe: Seq<char>,
)
    requires
        forall|j: int| 0 <= j < options.len() ==> (#[trigger] options[j]).0 != key,
    ensures
        option_value(options.push((key, value)), probe) == if probe == key {
            Some(value)
        } else {
            option_value(options, probe)
        },
    decreases options.len(),
{
    let after = options.push((key, value));
    if options.len() == 0 {
        assert(after.drop_first() =~= options);
    } else {
        assert(options[0].0 != key);
        assert(after[0] == options[0]);
        assert(after.drop_first() =~= options.drop_first().push((key, value)));
        assert forall|j: int| 0 <= j < options.drop_first().len() implies (
        #[trigger] options.drop_first()[j]).0 != key by {
            assert(options[j + 1].0 != key);
        }
        lemma_option_push(options.drop_first(), key, value, probe);
    }
}

} // verus!
