//! The cast of the blocks of a stream to a schema.

use vstd::prelude::*;
use crate::datablocks::data_block::BlockSpec;
use crate::datablocks::data_block::DataBlock;
use crate::datavalues::data_column::DataColumn;
use crate::datavalues::data_schema::DataSchema;
use crate::datavalues::data_schema::FieldSpec;
use crate::datavalues::data_value::Scalar;
use crate::errors::ErrorCode;
use crate::errors::ErrorKind;
use crate::functions::cast::cast_outcome;
use crate::functions::cast::CastFunction;

verus! {

/// The columns of a block after the first `n` of them have been cast, each
/// to the type of its field of `target`; the failure of the first column
/// that cannot be cast.
pub open spec fn cast_columns(block: BlockSpec, target: Seq<FieldSpec>, n: nat) -> Result<
    Seq<Seq<Scalar>>,
    ErrorKind,
>
    decreases n,
{
    if n == 0 {
        Ok(Seq::empty())
    } else {
        match cast_columns(block, target, (n - 1) as nat) {
            Err(kind) => Err(kind),
            Ok(done) => match cast_outcome(
                block.columns[n - 1],
                block.schema[n - 1].data_type,
                target[n - 1].data_type,
                target[n - 1].nullable,
            ) {
                Ok(rows) => Ok(done.push(rows)),
                Err(kind) => Err(kind),
            },
        }
    }
}

/// The columns of a block after its cast to the schema `target`. A block
/// with another number of columns than the schema has fields is refused
/// with `BadArguments`.
pub open spec fn cast_block_outcome(block: BlockSpec, target: Seq<FieldSpec>) -> Result<
    Seq<Seq<Scalar>>,
    ErrorKind,
> {
    if block.columns.len() != target.len() || block.schema.len() != target.len() {
        Err(ErrorKind::BadArguments)
    } else {
        cast_columns(block, target, target.len())
    }
}

/// The first columns of a block, cast to the types of their own fields,
/// are those columns.
pub proof fn lemma_cast_columns_own(block: BlockSpec, n: nat)
    requires
        n <= block.columns.len(),
        n <= block.schema.len(),
    ensures
        cast_columns(block, block.schema, n) == Ok::<Seq<Seq<Scalar>>, ErrorKind>(
            block.columns.take(n as int),
        ),
    decreases n,
{
    if n == 0 {
        assert(block.columns.take(0) =~= Seq::<Seq<Scalar>>::empty());
    } else {
        lemma_cast_columns_own(block, (n - 1) as nat);
        assert(block.columns.take(n - 1).push(block.columns[n - 1]) =~= block.columns.take(
            n as int,
        ));
    }
}

/// The cast of a block to its own schema yields the contents of its
/// columns unchanged.
pub proof fn lemma_cast_to_own_schema(block: BlockSpec)
    requires
        block.columns.len() == block.schema.len(),
    ensures
        cast_block_outcome(block, block.schema) == Ok::<Seq<Seq<Scalar>>, ErrorKind>(
            block.columns,
        ),
{
    lemma_cast_columns_own(block, block.columns.len());
    assert(block.columns.take(block.columns.len() as int) =~= block.columns);
}

/// A cast that went through keeps the number of rows of every column.
pub proof fn lemma_cast_keeps_rows(block: BlockSpec, target: Seq<FieldSpec>, n: nat)
    requires
        n <= block.columns.len(),
        n <= block.schema.len(),
        n <= target.len(),
        cast_columns(block, target, n) is Ok,
    ensures
        cast_columns(block, target, n)->Ok_0.len() == n,
        forall|i: int|
            0 <= i < n ==> (#[trigger] cast_columns(block, target, n)->Ok_0[i]).len()
                == block.columns[i].len(),
    decreases n,
{
    if n > 0 {
        lemma_cast_keeps_rows(block, target, (n - 1) as nat);
    }
}

/// The cast of each block of a stream to one schema.
#[derive(Debug)]
pub struct CastStream {
    pub output_schema: DataSchema,
    pub functions: Vec<CastFunction>,
}

/// There is one function for each field of the schema, and it casts to the
/// type of that field.
pub open spec fn functions_fit(schema: Seq<FieldSpec>, functions: Seq<CastFunction>) -> bool {
    &&& functions.len() == schema.len()
    &&& forall|i: int|
        0 <= i < functions.len() ==> (#[trigger] functions[i]).cast_type == schema[i].data_type
}

/// The failure of a cast whose parts do not fit each other.
fn shape_mismatch() -> (e: ErrorCode)
    ensures
        e.kind == ErrorKind::BadArguments,
{
    ErrorCode::create(
        ErrorKind::BadArguments,
        String::from_str("the block, the schema and the cast functions differ in length or type"),
    )
}

impl CastStream {
    /// The functions fit the schema.
    pub open spec fn wf(&self) -> bool {
        functions_fit(self.output_schema@, self.functions@)
    }

    /// The cast to `output_schema` by the given functions, one for each
    /// field. Refused with `BadArguments` unless there is one function for
    /// each field, which casts to the type of that field.
    pub fn try_create(output_schema: DataSchema, functions: Vec<CastFunction>) -> (r: Result<
        CastStream,
        ErrorCode,
    >)
        ensures
            functions_fit(output_schema@, functions@) ==> r is Ok && r->Ok_0.wf()
                && r->Ok_0.output_schema == output_schema && r->Ok_0.functions == functions,
            !functions_fit(output_schema@, functions@) ==> r is Err && r->Err_0.kind
                == ErrorKind::BadArguments,
    {
        if functions.len() != output_schema.num_fields() {
            return Err(shape_mismatch());
        }
        let mut i: usize = 0;
        while i < functions.len()
            invariant
                i <= functions.len(),
                functions.len() == output_schema@.len(),
                forall|j: int|
                    0 <= j < i ==> (#[trigger] functions@[j]).cast_type
                        == output_schema@[j].data_type,
            decreases functions.len() - i,
        {
            if functions[i].return_type() != output_schema.field(i).data_type() {
                return Err(shape_mismatch());
            }
            i = i + 1;
        }
        Ok(CastStream { output_schema, functions })
    }

    /// What the stream hands on for a block that comes from upstream: the
    /// block with each column cast to the type of its field of the output
    /// schema. The failure of the first column that cannot be cast is the
    /// failure of the block.
    pub fn cast(&self, block: &DataBlock) -> (r: Result<DataBlock, ErrorCode>)
        requires
            self.wf(),
            block.wf(),
        ensures
            match cast_block_outcome(block@, self.output_schema@) {
                Ok(columns) => r is Ok && r->Ok_0.wf() && r->Ok_0@.schema == self.output_schema@
                    && r->Ok_0@.columns == columns,
                Err(kind) => r is Err && r->Err_0.kind == kind,
            },
    {
        let n = self.functions.len();
        if block.num_columns() != n {
            return Err(shape_mismatch());
        }
        let ghost target = self.output_schema@;
        let mut columns: Vec<DataColumn> = Vec::new();
        let mut i: usize = 0;
        assert(Seq::new(0, |j: int| columns@[j]@) =~= Seq::<Seq<Scalar>>::empty());
        while i < n
            invariant
                self.wf(),
                block.wf(),
                target == self.output_schema@,
                n == self.functions@.len(),
                n == block@.columns.len(),
                i <= n,
                columns.len() == i,
                cast_columns(block@, target, i as nat) == Ok::<Seq<Seq<Scalar>>, ErrorKind>(
                    Seq::new(i as nat, |j: int| columns@[j]@),
                ),
                forall|j: int|
                    0 <= j < i ==> (#[trigger] columns@[j]).wf() && columns@[j].data_type_spec()
                        == target[j].data_type,
            decreases n - i,
        {
            let column = block.column(i);
            let ghost done = Seq::new(i as nat, |j: int| columns@[j]@);
            proof {
                assert(column.wf());
                assert(column@ == block@.columns[i as int]);
                assert(column.data_type_spec() == block@.schema[i as int].data_type);
                assert(self.functions@[i as int].cast_type == target[i as int].data_type);
            }
            let nullable = self.output_schema.field(i).is_nullable();
            match self.functions[i].eval(column, nullable) {
                Ok(cast) => {
                    columns.push(cast);
                    proof {
                        assert(Seq::new((i + 1) as nat, |j: int| columns@[j]@) =~= done.push(
                            columns@[i as int]@,
                        ));
                    }
                },
                Err(e) => {
                    proof {
                        lemma_cast_columns_error(block@, target, (i + 1) as nat, n as nat);
                    }
                    return Err(e);
                },
            }
            i = i + 1;
        }
        proof {
            lemma_cast_keeps_rows(block@, target, n as nat);
            assert forall|j: int| 0 <= j < columns@.len() implies (#[trigger] columns@[j])@.len()
                == columns@[0]@.len() by {
                let cast = cast_columns(block@, target, n as nat)->Ok_0;
                assert(cast[j].len() == block@.columns[j].len());
                assert(cast[0].len() == block@.columns[0].len());
                assert(cast[j] == columns@[j]@);
                assert(cast[0] == columns@[0]@);
                block.lemma_column_rows(j);
                block.lemma_column_rows(0);
            }
        }
        let cast = DataBlock { schema: self.output_schema.clone(), columns };
        assert(cast@.columns =~= cast_columns(block@, target, n as nat)->Ok_0);
        Ok(cast)
    }
}

/// The failure of a column is the failure of every cast that reaches past
/// it.
pub proof fn lemma_cast_columns_error(block: BlockSpec, target: Seq<FieldSpec>, k: nat, n: nat)
    requires
        k <= n,
        cast_columns(block, target, k) is Err,
    ensures
        cast_columns(block, target, n) == cast_columns(block, target, k),
    decreases n,
{
    if k < n {
        lemma_cast_columns_error(block, target, k, (n - 1) as nat);
    }
}

} // verus!
