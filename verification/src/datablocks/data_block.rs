//! The data block: the unit in which rows move through the engine.

use vstd::prelude::*;
use crate::datavalues::data_array::DataArray;
use crate::datavalues::data_column::DataColumn;
use crate::datavalues::data_schema::DataSchema;
use crate::datavalues::data_schema::FieldSpec;
use crate::datavalues::data_value::Scalar;
use crate::errors::ErrorCode;
use crate::errors::ErrorKind;

verus! {

/// A schema and one column per field, all of one length.
#[derive(Debug, PartialEq, Eq)]
pub struct DataBlock {
    pub schema: DataSchema,
    pub columns: Vec<DataColumn>,
}

/// What a block holds: its fields and, for each, the values of its rows.
pub struct BlockSpec {
    pub schema: Seq<FieldSpec>,
    pub columns: Seq<Seq<Scalar>>,
}

impl View for DataBlock {
    type V = BlockSpec;

    open spec fn view(&self) -> BlockSpec {
        BlockSpec {
            schema: self.schema@,
            columns: Seq::new(self.columns@.len(), |i: int| self.columns@[i]@),
        }
    }
}

/// The columns fit the schema: one per field, of the field's type, and all
/// of one length.
pub open spec fn columns_fit(schema: &DataSchema, columns: Seq<DataColumn>) -> bool {
    &&& columns.len() == schema@.len()
    &&& forall|i: int|
        0 <= i < columns.len() ==> (#[trigger] columns[i]).data_type_spec()
            == schema@[i].data_type
    &&& forall|i: int| 0 <= i < columns.len() ==> (#[trigger] columns[i])@.len() == columns[0]@.len()
}

impl Clone for DataBlock {
    fn clone(&self) -> (r: Self)
        ensures
            r@ == self@,
            self.wf() ==> r.wf(),
    {
        let mut columns: Vec<DataColumn> = Vec::new();
        let mut i: usize = 0;
        while i < self.columns.len()
            invariant
                i <= self.columns.len(),
                columns.len() == i,
                forall|j: int|
                    0 <= j < i ==> (#[trigger] columns[j])@ == self.columns[j]@
                        && columns[j].data_type_spec() == self.columns[j].data_type_spec() && (
                    self.columns[j].wf() ==> columns[j].wf()),
            decreases self.columns.len() - i,
        {
            columns.push(self.columns[i].clone());
            i = i + 1;
        }
        let r = DataBlock { schema: self.schema.clone(), columns };
        assert(r@.columns =~= self@.columns);
        assert(self.wf() ==> r.wf()) by {
            if self.wf() {
                assert forall|j: int| 0 <= j < r.columns@.len() implies (#[trigger] r.columns@[j]).wf() by {
                    assert(self.columns@[j].wf());
                }
                assert forall|j: int| 0 <= j < r.columns@.len() implies (
                #[trigger] r.columns@[j]).data_type_spec() == r.schema@[j].data_type by {
                    assert(self.columns@[j].data_type_spec() == self.schema@[j].data_type);
                }
                assert forall|j: int| 0 <= j < r.columns@.len() implies (#[trigger] r.columns@[j])@.len()
                    == r.columns@[0]@.len() by {
                    assert(self.columns@[j]@.len() == self.columns@[0]@.len());
                }
            }
        }
        r
    }
}

impl DataBlock {
    /// The block's invariant: every column is well formed, and the columns
    /// fit the schema.
    pub open spec fn wf(&self) -> bool {
        columns_ok(&self.schema, self.columns@)
    }

    /// The common length of the columns; 0 for a block without columns.
    pub open spec fn rows(&self) -> nat {
        if self.columns@.len() == 0 {
            0
        } else {
            self.columns@[0]@.len()
        }
    }

    /// In a well-formed block every column has `rows()` rows.
    pub proof fn lemma_column_rows(&self, i: int)
        requires
            self.wf(),
            0 <= i < self.columns@.len(),
        ensures
            self.columns@[i]@.len() == self.rows(),
            self@.columns[i].len() == self.rows(),
    {
    }

    /// Whether the block is well formed.
    pub fn is_well_formed(&self) -> (b: bool)
        ensures
            b == self.wf(),
    {
        if self.columns.len() != self.schema.num_fields() {
            return false;
        }
        let mut i: usize = 0;
        while i < self.columns.len()
            invariant
                i <= self.columns.len(),
                self.columns.len() == self.schema@.len(),
                forall|j: int| 0 <= j < i ==> (#[trigger] self.columns@[j]).wf(),
                forall|j: int|
                    0 <= j < i ==> (#[trigger] self.columns@[j]).data_type_spec()
                        == self.schema@[j].data_type,
                forall|j: int|
                    0 <= j < i ==> (#[trigger] self.columns@[j])@.len() == self.columns@[0]@.len(),
            decreases self.columns.len() - i,
        {
            let column = &self.columns[i];
            if !column.is_well_formed() || column.data_type() != self.schema.field(i).data_type()
                || column.len() != self.columns[0].len() {
                return false;
            }
            i = i + 1;
        }
        true
    }

    /// A block of the given columns. Fails with `BadArguments` unless every
    /// column is well formed, and there is one column per field, each of
    /// its field's type, and all are of one length.
    pub fn create(schema: DataSchema, columns: Vec<DataColumn>) -> (r: Result<DataBlock, ErrorCode>)
        ensures
            columns_ok(&schema, columns@) ==> r is Ok && r->Ok_0.wf() && r->Ok_0.schema == schema
                && r->Ok_0.columns == columns,
            !columns_ok(&schema, columns@) ==> r is Err && r->Err_0.kind
                == ErrorKind::BadArguments,
    {
        let block = DataBlock { schema, columns };
        if block.is_well_formed() {
            Ok(block)
        } else {
            Err(
                ErrorCode::create(
                    ErrorKind::BadArguments,
                    String::from_str("the columns of a block do not fit its schema"),
                ),
            )
        }
    }

    /// A block whose columns are the given arrays. Fails with
    /// `BadArguments` unless every array is well formed, and there is one
    /// array per field, each of its field's type, and all are of one
    /// length.
    pub fn create_by_array(schema: DataSchema, arrays: Vec<DataArray>) -> (r: Result<
        DataBlock,
        ErrorCode,
    >)
        ensures
            r is Ok ==> r->Ok_0.wf() && r->Ok_0.schema == schema && r->Ok_0@.columns == Seq::new(
                arrays@.len(),
                |i: int| arrays@[i]@,
            ),
            r is Ok <==> arrays_ok(&schema, arrays@),
            r is Err ==> r->Err_0.kind == ErrorKind::BadArguments,
    {
        let ghost given = arrays@;
        let mut ordered: Vec<DataColumn> = Vec::new();
        for array in it: arrays
            invariant
                it.seq() == given,
                ordered@.len() == it.index(),
                forall|j: int|
                    0 <= j < ordered@.len() ==> (#[trigger] ordered@[j]) == DataColumn::Array(
                        given[j],
                    ),
        {
            ordered.push(DataColumn::Array(array));
        }
        proof {
            assert(columns_ok(&schema, ordered@) == arrays_ok(&schema, given)) by {
                if arrays_ok(&schema, given) {
                    assert forall|i: int| 0 <= i < ordered@.len() implies (#[trigger] ordered@[i]).wf() by {
                        assert(given[i].wf());
                    }
                    assert forall|i: int| 0 <= i < ordered@.len() implies (
                    #[trigger] ordered@[i]).data_type_spec() == schema@[i].data_type by {
                        assert(given[i].data_type == schema@[i].data_type);
                    }
                    assert forall|i: int| 0 <= i < ordered@.len() implies (#[trigger] ordered@[i])@.len()
                        == ordered@[0]@.len() by {
                        assert(given[i]@.len() == given[0]@.len());
                    }
                }
                if columns_ok(&schema, ordered@) {
                    assert forall|i: int| 0 <= i < given.len() implies (#[trigger] given[i]).wf() by {
                        assert(ordered@[i].wf());
                    }
                    assert forall|i: int| 0 <= i < given.len() implies (#[trigger] given[i]).data_type
                        == schema@[i].data_type by {
                        assert(ordered@[i].data_type_spec() == schema@[i].data_type);
                    }
                    assert forall|i: int| 0 <= i < given.len() implies (#[trigger] given[i])@.len()
                        == given[0]@.len() by {
                        assert(ordered@[i]@.len() == ordered@[0]@.len());
                    }
                }
            }
        }
        let r = DataBlock::create(schema, ordered);
        proof {
            if r is Ok {
                assert(r->Ok_0@.columns =~= Seq::new(given.len(), |i: int| given[i]@));
            }
        }
        r
    }

    /// A block without rows: an empty array for each field.
    pub fn empty_with_schema(schema: DataSchema) -> (r: DataBlock)
        ensures
            r.wf(),
            r.schema == schema,
            r.rows() == 0,
            forall|i: int| 0 <= i < r@.columns.len() ==> (#[trigger] r@.columns[i]).len() == 0,
    {
        let mut columns: Vec<DataColumn> = Vec::new();
        let mut i: usize = 0;
        while i < schema.num_fields()
            invariant
                i <= schema@.len(),
                columns.len() == i,
                forall|j: int|
                    0 <= j < i ==> (#[trigger] columns@[j]).wf() && columns@[j]@.len() == 0
                        && columns@[j].data_type_spec() == schema@[j].data_type,
            decreases schema@.len() - i,
        {
            let array = DataArray { data_type: schema.field(i).data_type(), values: Vec::new() };
            columns.push(DataColumn::Array(array));
            i = i + 1;
        }
        DataBlock { schema, columns }
    }

    pub fn schema(&self) -> (s: &DataSchema)
        ensures
            s == &self.schema,
    {
        &self.schema
    }

    pub fn num_columns(&self) -> (n: usize)
        ensures
            n == self@.columns.len(),
    {
        self.columns.len()
    }

    /// The number of rows.
    pub fn num_rows(&self) -> (n: usize)
        ensures
            n == self.rows(),
    {
        if self.columns.len() == 0 {
            0
        } else {
            self.columns[0].len()
        }
    }

    pub fn is_empty(&self) -> (b: bool)
        ensures
            b == (self.rows() == 0),
    {
        self.num_rows() == 0
    }

    pub fn column(&self, index: usize) -> (c: &DataColumn)
        requires
            index < self@.columns.len(),
        ensures
            c == &self.columns@[index as int],
    {
        &self.columns[index]
    }

    /// The rows from `offset` on, `length` of them, of every column.
    pub fn slice(&self, offset: usize, length: usize) -> (r: DataBlock)
        requires
            self.wf(),
            offset + length <= self.rows(),
        ensures
            r.wf(),
            r@.schema == self@.schema,
            r@.columns.len() == self@.columns.len(),
            forall|i: int|
                0 <= i < r@.columns.len() ==> (#[trigger] r@.columns[i])
                    == self@.columns[i].subrange(offset as int, offset + length),
    {
        let mut columns: Vec<DataColumn> = Vec::new();
        let mut i: usize = 0;
        while i < self.columns.len()
            invariant
                self.wf(),
                offset + length <= self.rows(),
                i <= self.columns.len(),
                columns.len() == i,
                forall|j: int|
                    0 <= j < i ==> (#[trigger] columns@[j])@ == self.columns@[j]@.subrange(
                        offset as int,
                        offset + length,
                    ) && columns@[j].wf() && columns@[j].data_type_spec()
                        == self.columns@[j].data_type_spec(),
            decreases self.columns.len() - i,
        {
            proof {
                self.lemma_column_rows(i as int);
            }
            columns.push(self.columns[i].slice(offset, length));
            i = i + 1;
        }
        let r = DataBlock { schema: self.schema.clone(), columns };
        proof {
            assert forall|j: int| 0 <= j < r.columns@.len() implies (
            #[trigger] r.columns@[j]).data_type_spec() == r.schema@[j].data_type by {
                assert(self.columns@[j].data_type_spec() == self.schema@[j].data_type);
            }
        }
        r
    }
}

/// Every column is well formed, and the columns fit the schema.
pub open spec fn columns_ok(schema: &DataSchema, columns: Seq<DataColumn>) -> bool {
    &&& forall|i: int| 0 <= i < columns.len() ==> (#[trigger] columns[i]).wf()
    &&& columns_fit(schema, columns)
}

/// Every array is well formed, and the arrays fit the schema.
pub open spec fn arrays_ok(schema: &DataSchema, arrays: Seq<DataArray>) -> bool {
    &&& forall|i: int| 0 <= i < arrays.len() ==> (#[trigger] arrays[i]).wf()
    &&& arrays_fit(schema, arrays)
}

/// The arrays fit the schema: one per field, of the field's type, and all of
/// one length.
pub open spec fn arrays_fit(schema: &DataSchema, arrays: Seq<DataArray>) -> bool {
    &&& arrays.len() == schema@.len()
    &&& forall|i: int| 0 <= i < arrays.len() ==> (#[trigger] arrays[i]).data_type == schema@[i].data_type
    &&& forall|i: int| 0 <= i < arrays.len() ==> (#[trigger] arrays[i])@.len() == arrays[0]@.len()
}

} // verus!
