//! The sink of a pipeline: what arrives is appended to a table.

use vstd::prelude::*;
use crate::catalogs::table_info::TableInfo;
use crate::datablocks::data_block::DataBlock;
use crate::datavalues::data_schema::DataSchema;
use crate::errors::ErrorCode;
use crate::functions::cast::CastFunction;
use crate::streams::cast_stream::cast_block_outcome;
use crate::streams::cast_stream::CastStream;
use crate::streams::cast_stream::functions_fit;

verus! {

/// The processor that appends the blocks of its input to a table. `P` is
/// the type of the processors that it can be wired to.
#[derive(Debug)]
pub struct SinkTransform<P> {
    pub table_info: TableInfo,
    /// The processor upstream; `None` stands for the empty processor, which
    /// yields nothing.
    pub input: Option<P>,
    /// Whether the blocks are cast to the schema of the table before they
    /// are appended.
    pub cast_needed: bool,
}

/// One cast function for each field of the schema, to the type of the
/// field.
pub fn cast_functions(schema: &DataSchema) -> (r: Result<Vec<CastFunction>, ErrorCode>)
    ensures
        r is Ok,
        functions_fit(schema@, r->Ok_0@),
        forall|i: int| 0 <= i < r->Ok_0@.len() ==> (#[trigger] r->Ok_0@[i]).display_name@ == "cast"@,
{
    let mut functions: Vec<CastFunction> = Vec::new();
    let mut i: usize = 0;
    while i < schema.num_fields()
        invariant
            i <= schema@.len(),
            functions.len() == i,
            forall|j: int|
                0 <= j < i ==> (#[trigger] functions@[j]).cast_type == schema@[j].data_type
                    && functions@[j].display_name@ == "cast"@,
        decreases schema@.len() - i,
    {
        let field = schema.field(i);
        match CastFunction::create(String::from_str("cast"), field.data_type()) {
            Ok(f) => {
                functions.push(f);
            },
            Err(e) => {
                return Err(e);
            },
        }
        i = i + 1;
    }
    Ok(functions)
}

impl<P> SinkTransform<P> {
    /// The sink of the given table, wired to the empty processor.
    pub fn create(table_info: TableInfo, cast_needed: bool) -> (sink: SinkTransform<P>)
        ensures
            sink.table_info == table_info,
            sink.cast_needed == cast_needed,
            sink.input is None,
    {
        SinkTransform { table_info, input: None, cast_needed }
    }

    pub fn name(&self) -> (s: &'static str)
        ensures
            s@ == "SinkTransform"@,
    {
        "SinkTransform"
    }

    /// Wires the sink to `input`, in place of what it was wired to.
    pub fn connect_to(&mut self, input: P) -> (r: Result<(), ErrorCode>)
        ensures
            r is Ok,
            final(self).input == Some(input),
            final(self).table_info == old(self).table_info,
            final(self).cast_needed == old(self).cast_needed,
    {
        self.input = Some(input);
        Ok(())
    }

    /// The processor upstream, where the sink is wired to one.
    pub fn inputs(&self) -> (r: Option<&P>)
        ensures
            self.input is None ==> r is None,
            self.input is Some ==> r is Some && *r->0 == self.input->0,
    {
        self.input.as_ref()
    }

    /// The cast that the sink puts between its input and the table: none
    /// where no cast is needed, else the cast to the schema of the table,
    /// with one function for each of its fields.
    pub fn cast_stream(&self) -> (r: Result<Option<CastStream>, ErrorCode>)
        ensures
            r is Ok,
            !self.cast_needed ==> r->Ok_0 is None,
            self.cast_needed ==> r->Ok_0 is Some && r->Ok_0->0.wf() && r->Ok_0->0.output_schema@
                == self.table_info@.schema,
    {
        if !self.cast_needed {
            return Ok(None);
        }
        let schema = self.table_info.schema().clone();
        let functions = match cast_functions(&schema) {
            Ok(functions) => functions,
            Err(e) => {
                return Err(e);
            },
        };
        match CastStream::try_create(schema, functions) {
            Ok(stream) => Ok(Some(stream)),
            Err(e) => Err(e),
        }
    }

    /// What the sink hands to the table for a block that its input yields:
    /// the block as it is where no cast is needed, else the block cast to
    /// the schema of the table.
    pub fn transform(&self, block: &DataBlock) -> (r: Result<DataBlock, ErrorCode>)
        requires
            block.wf(),
        ensures
            !self.cast_needed ==> r is Ok && r->Ok_0@ == block@ && r->Ok_0.wf(),
            self.cast_needed ==> match cast_block_outcome(block@, self.table_info@.schema) {
                Ok(columns) => r is Ok && r->Ok_0.wf() && r->Ok_0@.schema
                    == self.table_info@.schema && r->Ok_0@.columns == columns,
                Err(kind) => r is Err && r->Err_0.kind == kind,
            },
    {
        match self.cast_stream() {
            Ok(Some(stream)) => stream.cast(block),
            Ok(None) => Ok(block.clone()),
            Err(e) => Err(e),
        }
    }
}

} // verus!
