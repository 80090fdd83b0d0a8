//! The table `system.users`: one row for each user that is stored.

use vstd::prelude::*;
use vstd::utf8::encode_utf8;
use crate::catalogs::table_info::table_desc;
use crate::catalogs::table_info::TableIdent;
use crate::catalogs::table_info::TableInfo;
use crate::catalogs::table_info::TableInfoSpec;
use crate::datablocks::data_block::DataBlock;
use crate::datavalues::data_array::DataArray;
use crate::datavalues::data_column::DataColumn;
use crate::datavalues::data_schema::DataField;
use crate::datavalues::data_schema::DataSchema;
use crate::datavalues::data_schema::FieldSpec;
use crate::datavalues::data_type::DataType;
use crate::datavalues::data_value::DataValue;
use crate::datavalues::data_value::Scalar;
use crate::errors::ErrorCode;
use crate::streams::data_block_stream::DataBlockStream;
use crate::users::user_info::UserInfo;
use crate::users::user_info::UserInfoSpec;

verus! {

/// The table of the users.
#[derive(Debug, PartialEq, Eq)]
pub struct UsersTable {
    pub table_info: TableInfo,
}

/// The fields of the table: the name and the host of the user, the stored
/// password, which may be null, and the number of the kind of the password.
pub open spec fn users_schema() -> Seq<FieldSpec> {
    seq![
        FieldSpec { name: "name"@, data_type: DataType::String, nullable: false },
        FieldSpec { name: "hostname"@, data_type: DataType::String, nullable: false },
        FieldSpec { name: "password"@, data_type: DataType::String, nullable: true },
        FieldSpec { name: "auth_type"@, data_type: DataType::UInt8, nullable: false },
    ]
}

/// The description of the table under the given id.
pub open spec fn users_table_info(table_id: u64) -> TableInfoSpec {
    TableInfoSpec {
        ident: TableIdent { table_id, version: 0 },
        desc: table_desc("system"@, "users"@),
        name: "users"@,
        schema: users_schema(),
        engine: "SystemUsers"@,
        options: Seq::empty(),
    }
}

/// The views of the users, in their order.
pub open spec fn users_view(users: Seq<UserInfo>) -> Seq<UserInfoSpec> {
    Seq::new(users.len(), |i: int| users[i]@)
}

/// The columns of the table for the given users: one row for each, in
/// their order.
pub open spec fn users_columns(users: Seq<UserInfoSpec>) -> Seq<Seq<Scalar>> {
    seq![
        Seq::new(users.len(), |i: int| Scalar::String(Some(encode_utf8(users[i].name)))),
        Seq::new(users.len(), |i: int| Scalar::String(Some(encode_utf8(users[i].hostname)))),
        Seq::new(users.len(), |i: int| Scalar::String(Some(users[i].password))),
        Seq::new(users.len(), |i: int| Scalar::UInt8(Some(users[i].auth_type.code_spec()))),
    ]
}

/// The schema of the table.
fn make_schema() -> (schema: DataSchema)
    ensures
        schema@ == users_schema(),
{
    let mut fields: Vec<DataField> = Vec::new();
    fields.push(DataField::new("name", DataType::String, false));
    fields.push(DataField::new("hostname", DataType::String, false));
    fields.push(DataField::new("password", DataType::String, true));
    fields.push(DataField::new("auth_type", DataType::UInt8, false));
    let schema = DataSchema::new(fields);
    assert(schema@ =~= users_schema());
    schema
}

impl UsersTable {
    /// The table under the given id.
    pub fn create(table_id: u64) -> (table: UsersTable)
        ensures
            table.table_info@ == users_table_info(table_id),
    {
        let table_info = TableInfo::simple(
            "system",
            "users",
            TableIdent::new(table_id, 0),
            make_schema(),
            "SystemUsers",
        );
        UsersTable { table_info }
    }

    pub fn get_table_info(&self) -> (info: &TableInfo)
        ensures
            info == &self.table_info,
    {
        &self.table_info
    }

    /// The block of the given users: one row for each, in their order.
    pub fn users_block(users: &Vec<UserInfo>) -> (block: DataBlock)
        ensures
            block.wf(),
            block@.schema == users_schema(),
            block@.columns == users_columns(users_view(users@)),
    {
        let ghost all = users_view(users@);
        let mut names: Vec<DataValue> = Vec::new();
        let mut hostnames: Vec<DataValue> = Vec::new();
        let mut passwords: Vec<DataValue> = Vec::new();
        let mut auth_types: Vec<DataValue> = Vec::new();
        let mut i: usize = 0;
        while i < users.len()
            invariant
                i <= users.len(),
                all == users_view(users@),
                names.len() == i,
                hostnames.len() == i,
                passwords.len() == i,
                auth_types.len() == i,
                forall|j: int|
                    0 <= j < i ==> (#[trigger] names@[j])@ == Scalar::String(
                        Some(encode_utf8(all[j].name)),
                    ),
                forall|j: int|
                    0 <= j < i ==> (#[trigger] hostnames@[j])@ == Scalar::String(
                        Some(encode_utf8(all[j].hostname)),
                    ),
                forall|j: int|
                    0 <= j < i ==> (#[trigger] passwords@[j])@ == Scalar::String(
                        Some(all[j].password),
                    ),
                forall|j: int|
                    0 <= j < i ==> (#[trigger] auth_types@[j])@ == Scalar::UInt8(
                        Some(all[j].auth_type.code_spec()),
                    ),
            decreases users.len() - i,
        {
            let user = &users[i];
            assert(user@ == all[i as int]);
            names.push(DataValue::String(Some(user.name.as_str().as_bytes_vec())));
            hostnames.push(DataValue::String(Some(user.hostname.as_str().as_bytes_vec())));
            passwords.push(DataValue::String(Some(user.password.clone())));
            auth_types.push(DataValue::UInt8(Some(user.auth_type.code())));
            i = i + 1;
        }
        let mut columns: Vec<DataColumn> = Vec::new();
        columns.push(DataColumn::Array(DataArray { data_type: DataType::String, values: names }));
        columns.push(
            DataColumn::Array(DataArray { data_type: DataType::String, values: hostnames }),
        );
        columns.push(
            DataColumn::Array(DataArray { data_type: DataType::String, values: passwords }),
        );
        columns.push(
            DataColumn::Array(DataArray { data_type: DataType::UInt8, values: auth_types }),
        );
        let block = DataBlock { schema: make_schema(), columns };
        proof {
            let expected = users_columns(all);
            assert(block@.columns.len() == 4);
            assert(block@.columns[0] =~= expected[0]);
            assert(block@.columns[1] =~= expected[1]);
            assert(block@.columns[2] =~= expected[2]);
            assert(block@.columns[3] =~= expected[3]);
            assert(block@.columns =~= expected);
        }
        block
    }

    /// What a read of the table yields for the users that the user manager
    /// has handed over: a stream of one block, with one row for each user.
    pub fn read(&self, users: &Vec<UserInfo>) -> (r: Result<DataBlockStream, ErrorCode>)
        ensures
            r is Ok,
            r->Ok_0.wf(),
            r->Ok_0.schema@ == users_schema(),
            r->Ok_0.remaining().len() == 1,
            r->Ok_0.remaining()[0].schema == users_schema(),
            r->Ok_0.remaining()[0].columns == users_columns(users_view(users@)),
            r->Ok_0.blocks_wf(),
    {
        let block = UsersTable::users_block(users);
        Ok(DataBlockStream::single(block))
    }
}

} // verus!
