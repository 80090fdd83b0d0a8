//! The function `ascii`: the code of the first byte of a string.

use vstd::prelude::*;
use crate::datavalues::data_array::DataArray;
use crate::datavalues::data_column::DataColumn;
use crate::datavalues::data_schema::DataSchema;
use crate::datavalues::data_type::DataType;
use crate::datavalues::data_value::DataValue;
use crate::datavalues::data_value::Scalar;
use crate::datavalues::decimal::decimal;
use crate::datavalues::decimal::decimal_bytes;
use crate::errors::ErrorCode;
use crate::errors::ErrorKind;
use crate::functions::cast::cast_column;
use crate::functions::cast::cast_outcome;

verus! {

/// What is known of a function apart from what it computes.
#[derive(Clone, Copy, Debug, PartialEq, Eq, Structural)]
pub struct FunctionFeatures {
    /// The same arguments always give the same result.
    pub is_deterministic: bool,
}

impl FunctionFeatures {
    /// Nothing is known.
    pub fn default() -> (f: FunctionFeatures)
        ensures
            !f.is_deterministic,
    {
        FunctionFeatures { is_deterministic: false }
    }

    pub fn deterministic(self) -> (f: FunctionFeatures)
        ensures
            f.is_deterministic,
    {
        FunctionFeatures { is_deterministic: true }
    }
}

/// The functions that can be made by name.
#[derive(Clone, Copy, Debug, PartialEq, Eq, Structural)]
pub enum FunctionCreator {
    Ascii,
}

/// How a function is registered: what makes it, and its features.
#[derive(Clone, Copy, Debug, PartialEq, Eq, Structural)]
pub struct FunctionDescription {
    pub features: FunctionFeatures,
    pub function_creator: FunctionCreator,
}

impl FunctionDescription {
    /// The description of what `creator` makes, with nothing known of it.
    pub fn creator(creator: FunctionCreator) -> (d: FunctionDescription)
        ensures
            d.function_creator == creator,
            !d.features.is_deterministic,
    {
        FunctionDescription { features: FunctionFeatures::default(), function_creator: creator }
    }

    pub fn features(self, features: FunctionFeatures) -> (d: FunctionDescription)
        ensures
            d.function_creator == self.function_creator,
            d.features == features,
    {
        FunctionDescription { features, function_creator: self.function_creator }
    }

    /// Makes the function under the name that it is shown with.
    pub fn create(&self, display_name: &str) -> (r: Result<AsciiFunction, ErrorCode>)
        ensures
            r is Ok,
            r->Ok_0.display_name@ == display_name@,
    {
        match self.function_creator {
            FunctionCreator::Ascii => AsciiFunction::try_create(display_name),
        }
    }
}

/// The function `ascii`.
#[derive(Debug, PartialEq, Eq)]
pub struct AsciiFunction {
    pub display_name: String,
}

impl Clone for AsciiFunction {
    fn clone(&self) -> (r: Self)
        ensures
            r.display_name@ == self.display_name@,
    {
        AsciiFunction { display_name: self.display_name.clone() }
    }
}

/// The types of argument that `ascii` takes.
pub open spec fn ascii_accepts(data_type: DataType) -> bool {
    data_type.is_integer_spec() || data_type == DataType::String || data_type == DataType::Null
}

/// The text of the refusal of an argument of another type.
pub open spec fn ascii_type_message(data_type: DataType) -> Seq<char> {
    "Expected integer or string or null, but got "@ + data_type.name_spec()
}

/// What `ascii` gives for one row of a string column: the code of the first
/// byte, written in decimal; a null for a null and for the empty string.
pub open spec fn ascii_row(v: Scalar) -> Scalar {
    match v {
        Scalar::String(Some(bytes)) => if bytes.len() > 0 {
            Scalar::String(Some(decimal(bytes[0] as int)))
        } else {
            Scalar::String(None)
        },
        _ => Scalar::String(None),
    }
}

/// What `ascii` gives for the rows of a string column.
pub open spec fn ascii_rows(rows: Seq<Scalar>) -> Seq<Scalar> {
    Seq::new(rows.len(), |i: int| ascii_row(rows[i]))
}

impl DataValue {
    /// What `ascii` gives for the value as a row of a string column.
    pub fn ascii(&self) -> (r: DataValue)
        ensures
            r@ == ascii_row(self@),
    {
        match self {
            DataValue::String(Some(bytes)) => {
                if bytes.len() > 0 {
                    DataValue::String(Some(decimal_bytes(false, bytes[0] as u64)))
                } else {
                    DataValue::String(None)
                }
            },
            _ => DataValue::String(None),
        }
    }
}

impl AsciiFunction {
    pub fn try_create(display_name: &str) -> (r: Result<AsciiFunction, ErrorCode>)
        ensures
            r is Ok,
            r->Ok_0.display_name@ == display_name@,
    {
        Ok(AsciiFunction { display_name: String::from_str(display_name) })
    }

    /// How the function is registered: it is deterministic.
    pub fn desc() -> (d: FunctionDescription)
        ensures
            d.function_creator == FunctionCreator::Ascii,
            d.features.is_deterministic,
    {
        FunctionDescription::creator(FunctionCreator::Ascii).features(
            FunctionFeatures::default().deterministic(),
        )
    }

    pub fn name(&self) -> (s: &'static str)
        ensures
            s@ == "ascii"@,
    {
        "ascii"
    }

    /// The name under which the function is shown.
    pub fn to_string(&self) -> (s: String)
        ensures
            s@ == "ASCII"@,
    {
        String::from_str("ASCII")
    }

    pub fn num_arguments(&self) -> (n: usize)
        ensures
            n == 1,
    {
        1
    }

    /// The type of the result, a string, for an argument that is an
    /// integer, a string or the null; any other argument is refused with
    /// `IllegalDataType`.
    pub fn return_type(&self, args: &[DataType]) -> (r: Result<DataType, ErrorCode>)
        requires
            args@.len() > 0,
        ensures
            ascii_accepts(args@[0]) ==> r == Ok::<DataType, ErrorCode>(DataType::String),
            !ascii_accepts(args@[0]) ==> r is Err && r->Err_0.kind == ErrorKind::IllegalDataType
                && r->Err_0.message@ == ascii_type_message(args@[0]),
    {
        let arg = args[0];
        if !arg.is_integer() && arg != DataType::String && arg != DataType::Null {
            let mut message = String::from_str("Expected integer or string or null, but got ");
            message.append(arg.name());
            return Err(ErrorCode::create(ErrorKind::IllegalDataType, message));
        }
        Ok(DataType::String)
    }

    /// The result can be null, whatever the schema of the input.
    pub fn nullable(&self, _input_schema: &DataSchema) -> (r: Result<bool, ErrorCode>)
        ensures
            r == Ok::<bool, ErrorCode>(true),
    {
        Ok(true)
    }

    /// Applies the function to a column: the column is cast to strings, and
    /// each row gives the code of its first byte. Where the result stands
    /// for one value it comes back as a constant.
    pub fn eval(&self, column: &DataColumn) -> (r: Result<DataColumn, ErrorCode>)
        requires
            column.wf(),
        ensures
            match cast_outcome(column@, column.data_type_spec(), DataType::String, true) {
                Ok(rows) => r is Ok && r->Ok_0@ == ascii_rows(rows) && r->Ok_0.data_type_spec()
                    == DataType::String && r->Ok_0.wf(),
                Err(kind) => r is Err && r->Err_0.kind == kind,
            },
    {
        let strings = match cast_column(column, DataType::String, true) {
            Ok(strings) => strings,
            Err(e) => {
                return Err(e);
            },
        };
        let rows = column.len();
        let built = match &strings {
            DataColumn::Constant(value, _) => {
                let r = DataColumn::Constant(value.ascii(), rows);
                assert(r@ =~= ascii_rows(strings@));
                r
            },
            DataColumn::Array(array) => {
                let mut values: Vec<DataValue> = Vec::new();
                let mut i: usize = 0;
                while i < array.len()
                    invariant
                        i <= array@.len(),
                        values.len() == i,
                        forall|j: int|
                            0 <= j < i ==> (#[trigger] values@[j])@ == ascii_row(array@[j]),
                    decreases array@.len() - i,
                {
                    assert(array.values@[i as int]@ == array@[i as int]);
                    values.push(array.values[i].ascii());
                    i = i + 1;
                }
                let result = DataArray { data_type: DataType::String, values };
                assert(result@ =~= ascii_rows(array@));
                DataColumn::Array(result)
            },
        };
        let column = built.resize_constant(rows);
        assert(column@ =~= built@);
        Ok(column)
    }
}

} // verus!
