//! Casts of values, columns and blocks.
//!
//! A cast works row by row. A row without a value stays without one. A row
//! whose value has no counterpart in the target type fails: it becomes a
//! null where the target allows nulls, and the whole cast fails where it
//! does not. A cast to the type that a column already has leaves the column
//! as it is.
//!
//! Casts are defined between the integer types, from booleans to integers,
//! between integers and strings, which hold the integer in decimal, and
//! from the type `Null` to every type that has values of its own.

use vstd::prelude::*;
use crate::datavalues::data_array::DataArray;
use crate::datavalues::data_column::DataColumn;
use crate::datavalues::data_type::DataType;
use crate::datavalues::data_value::DataValue;
use crate::datavalues::data_value::missing_of;
use crate::datavalues::data_value::Scalar;
use crate::datavalues::decimal::decimal;
use crate::datavalues::decimal::decimal_bytes;
use crate::datavalues::parse::lemma_parse_decimal;
use crate::datavalues::parse::parse_integer;
use crate::datavalues::parse::parse_integer_bytes;
use crate::errors::ErrorCode;
use crate::errors::ErrorKind;

verus! {

/// Whether columns of type `from` can be cast to type `to`.
pub open spec fn cast_supported(from: DataType, to: DataType) -> bool {
    from == to || (to.has_scalars_spec() && (from == DataType::Null || ((from.is_integer_spec()
        || from == DataType::Boolean || from == DataType::String) && to.is_integer_spec()) || (
    from.is_integer_spec() && to == DataType::String)))
}

/// The number that a value stands for: that of an integer, 1 and 0 for the
/// booleans, and for a string the integer that it holds in decimal.
pub open spec fn number_of(v: Scalar) -> Option<int> {
    match v {
        Scalar::Boolean(Some(b)) => Some(
            if b {
                1int
            } else {
                0int
            },
        ),
        Scalar::String(Some(bytes)) => parse_integer(bytes),
        _ => v.int_value(),
    }
}

/// The value of the integer type `to` that holds `x`.
pub open spec fn integer_of(to: DataType, x: int) -> Scalar {
    match to {
        DataType::Int8 => Scalar::Int8(Some(x as i8)),
        DataType::Int16 => Scalar::Int16(Some(x as i16)),
        DataType::Int32 => Scalar::Int32(Some(x as i32)),
        DataType::Int64 => Scalar::Int64(Some(x as i64)),
        DataType::UInt8 => Scalar::UInt8(Some(x as u8)),
        DataType::UInt16 => Scalar::UInt16(Some(x as u16)),
        DataType::UInt32 => Scalar::UInt32(Some(x as u32)),
        _ => Scalar::UInt64(Some(x as u64)),
    }
}

/// The counterpart in the type `to` of a present value of another type;
/// nothing where it has none.
pub open spec fn converted(v: Scalar, to: DataType) -> Option<Scalar> {
    match number_of(v) {
        Some(x) => if to.is_integer_spec() {
            if to.int_min() <= x <= to.int_max() {
                Some(integer_of(to, x))
            } else {
                None
            }
        } else if to == DataType::String && v.int_value() is Some {
            Some(Scalar::String(Some(decimal(x))))
        } else {
            None
        },
        None => None,
    }
}

/// Whether the row fails in a cast to the type `to`.
pub open spec fn cast_fails(v: Scalar, to: DataType) -> bool {
    !v.is_missing() && converted(v, to) is None
}

/// What a row holds after a cast to the type `to` that went through.
pub open spec fn cast_row(v: Scalar, to: DataType) -> Scalar {
    if v.is_missing() {
        missing_of(to)
    } else {
        match converted(v, to) {
            Some(w) => w,
            None => missing_of(to),
        }
    }
}

/// Some row fails in a cast to the type `to`.
pub open spec fn some_row_fails(rows: Seq<Scalar>, to: DataType) -> bool {
    exists|i: int| 0 <= i < rows.len() && cast_fails(#[trigger] rows[i], to)
}

/// What the rows hold after a cast to the type `to` that went through.
pub open spec fn cast_rows(rows: Seq<Scalar>, to: DataType) -> Seq<Scalar> {
    Seq::new(rows.len(), |i: int| cast_row(rows[i], to))
}

/// The outcome of the cast of a column of type `from`, with the given rows,
/// to the type `to`.
pub open spec fn cast_outcome(rows: Seq<Scalar>, from: DataType, to: DataType, nullable: bool) -> Result<
    Seq<Scalar>,
    ErrorKind,
> {
    if from == to {
        Ok(rows)
    } else if !cast_supported(from, to) {
        Err(ErrorKind::IllegalDataType)
    } else if !nullable && some_row_fails(rows, to) {
        Err(ErrorKind::BadArguments)
    } else {
        Ok(cast_rows(rows, to))
    }
}

/// A cast to the type that the rows already have gives the rows back.
pub proof fn lemma_cast_to_own_type(rows: Seq<Scalar>, data_type: DataType, nullable: bool)
    ensures
        cast_outcome(rows, data_type, data_type, nullable) == Ok::<Seq<Scalar>, ErrorKind>(rows),
{
}

/// Every row of a cast that went through is of the target type.
pub proof fn lemma_cast_row_typed(v: Scalar, to: DataType)
    requires
        to.has_scalars_spec(),
    ensures
        cast_row(v, to).data_type() == to,
{
}

/// An integer that is cast to a string and back to its type is the integer
/// again.
pub proof fn lemma_cast_integer_round_trip(v: Scalar)
    requires
        v.int_value() is Some,
    ensures
        converted(v, DataType::String) is Some,
        converted(converted(v, DataType::String)->0, v.data_type()) == Some(v),
{
    lemma_parse_decimal(v.int_value()->0);
}

/// The text of the failure of a cast between types that have none: it
/// names both types.
pub open spec fn unsupported_cast_message(from: DataType, to: DataType) -> Seq<char> {
    "Unsupported cast from "@ + from.name_spec() + " to "@ + to.name_spec()
}

/// The failure of a cast between types that have none.
fn unsupported_cast(from: DataType, to: DataType) -> (e: ErrorCode)
    ensures
        e.kind == ErrorKind::IllegalDataType,
        e.message@ == unsupported_cast_message(from, to),
{
    let mut message = String::from_str("Unsupported cast from ");
    message.append(from.name());
    message.append(" to ");
    message.append(to.name());
    ErrorCode::create(ErrorKind::IllegalDataType, message)
}

/// The failure of a cast of a row that has no counterpart in a type without
/// nulls.
fn failed_row(to: DataType) -> (e: ErrorCode)
    ensures
        e.kind == ErrorKind::BadArguments,
{
    let mut message = String::from_str("Cast error happens in casting to ");
    message.append(to.name());
    ErrorCode::create(ErrorKind::BadArguments, message)
}

impl DataType {
    /// Whether columns of this type can be cast to type `to`.
    pub fn can_cast_to(&self, to: DataType) -> (b: bool)
        ensures
            b == cast_supported(*self, to),
    {
        if *self == to {
            return true;
        }
        if !to.has_scalars() {
            return false;
        }
        match self {
            DataType::Null => true,
            DataType::Boolean => to.is_integer(),
            DataType::String => to.is_integer(),
            _ => self.is_integer() && (to.is_integer() || to == DataType::String),
        }
    }
}

impl DataValue {
    /// The number that the value stands for, where it lies between -2^64
    /// and 2^64, which no integer type goes beyond.
    pub fn number(&self) -> (r: Option<i128>)
        ensures
            match number_of(self@) {
                Some(x) => if -0x1_0000_0000_0000_0000 <= x <= 0x1_0000_0000_0000_0000 {
                    r == Some(x as i128)
                } else {
                    r is None
                },
                None => r is None,
            },
    {
        match self {
            DataValue::Boolean(Some(b)) => Some(
                if *b {
                    1i128
                } else {
                    0i128
                },
            ),
            DataValue::Int8(Some(v)) => Some(*v as i128),
            DataValue::Int16(Some(v)) => Some(*v as i128),
            DataValue::Int32(Some(v)) => Some(*v as i128),
            DataValue::Int64(Some(v)) => Some(*v as i128),
            DataValue::UInt8(Some(v)) => Some(*v as i128),
            DataValue::UInt16(Some(v)) => Some(*v as i128),
            DataValue::UInt32(Some(v)) => Some(*v as i128),
            DataValue::UInt64(Some(v)) => Some(*v as i128),
            DataValue::String(Some(bytes)) => parse_integer_bytes(bytes),
            _ => None,
        }
    }

    /// The value of the integer type `to` that holds `x`; nothing where the
    /// type cannot hold it.
    pub fn integer(to: DataType, x: i128) -> (r: Option<DataValue>)
        requires
            to.is_integer_spec(),
        ensures
            to.int_min() <= x <= to.int_max() ==> r is Some && r->0@ == integer_of(to, x as int),
            !(to.int_min() <= x <= to.int_max()) ==> r is None,
    {
        match to {
            DataType::Int8 => if -128 <= x && x <= 127 {
                Some(DataValue::Int8(Some(x as i8)))
            } else {
                None
            },
            DataType::Int16 => if -32768 <= x && x <= 32767 {
                Some(DataValue::Int16(Some(x as i16)))
            } else {
                None
            },
            DataType::Int32 => if -2147483648 <= x && x <= 2147483647 {
                Some(DataValue::Int32(Some(x as i32)))
            } else {
                None
            },
            DataType::Int64 => if -9223372036854775808 <= x && x <= 9223372036854775807 {
                Some(DataValue::Int64(Some(x as i64)))
            } else {
                None
            },
            DataType::UInt8 => if 0 <= x && x <= 255 {
                Some(DataValue::UInt8(Some(x as u8)))
            } else {
                None
            },
            DataType::UInt16 => if 0 <= x && x <= 65535 {
                Some(DataValue::UInt16(Some(x as u16)))
            } else {
                None
            },
            DataType::UInt32 => if 0 <= x && x <= 4294967295 {
                Some(DataValue::UInt32(Some(x as u32)))
            } else {
                None
            },
            _ => if 0 <= x && x <= 18446744073709551615 {
                Some(DataValue::UInt64(Some(x as u64)))
            } else {
                None
            },
        }
    }

    /// The counterpart of the value in the type `to`, where it has one.
    pub fn convert_to(&self, to: DataType) -> (r: Option<DataValue>)
        ensures
            match converted(self@, to) {
                Some(w) => r is Some && r->0@ == w,
                None => r is None,
            },
    {
        let x = match self.number() {
            Some(x) => x,
            None => {
                return None;
            },
        };
        if to.is_integer() {
            DataValue::integer(to, x)
        } else if to == DataType::String && self.data_type().is_integer() {
            assert(self@.int_value() is Some);
            let negative = x < 0;
            let magnitude: u64 = if negative {
                (-x) as u64
            } else {
                x as u64
            };
            Some(DataValue::String(Some(decimal_bytes(negative, magnitude))))
        } else {
            None
        }
    }

    /// What a row holds after a cast to the type `to`; nothing where the row
    /// fails.
    pub fn cast_to(&self, to: DataType) -> (r: Option<DataValue>)
        ensures
            cast_fails(self@, to) ==> r is None,
            !cast_fails(self@, to) ==> r is Some && r->0@ == cast_row(self@, to),
    {
        if self.is_missing() {
            Some(DataValue::missing(to))
        } else {
            self.convert_to(to)
        }
    }
}

/// Casts every row of an array of another type.
fn cast_array(array: &DataArray, to: DataType, nullable: bool) -> (r: Result<DataArray, ErrorCode>)
    requires
        array.wf(),
        array.data_type != to,
        cast_supported(array.data_type, to),
    ensures
        match cast_outcome(array@, array.data_type, to, nullable) {
            Ok(rows) => r is Ok && r->Ok_0@ == rows && r->Ok_0.data_type == to && r->Ok_0.wf(),
            Err(kind) => r is Err && r->Err_0.kind == kind,
        },
{
    let ghost rows = array@;
    let mut values: Vec<DataValue> = Vec::new();
    let mut i: usize = 0;
    while i < array.len()
        invariant
            rows == array@,
            to.has_scalars_spec(),
            array.data_type != to,
            cast_supported(array.data_type, to),
            i <= rows.len(),
            values.len() == i,
            forall|j: int| 0 <= j < i ==> (#[trigger] values@[j])@ == cast_row(rows[j], to),
            !nullable ==> forall|j: int| 0 <= j < i ==> !cast_fails(#[trigger] rows[j], to),
        decreases rows.len() - i,
    {
        assert(array.values@[i as int]@ == rows[i as int]);
        match array.values[i].cast_to(to) {
            Some(v) => {
                values.push(v);
            },
            None => {
                if nullable {
                    values.push(DataValue::missing(to));
                } else {
                    assert(cast_fails(rows[i as int], to));
                    return Err(failed_row(to));
                }
            },
        }
        i = i + 1;
    }
    let cast = DataArray { data_type: to, values };
    proof {
        assert(cast@ =~= cast_rows(rows, to));
        assert forall|j: int| 0 <= j < cast.values@.len() implies (#[trigger] cast.values@[j])@.data_type()
            == to by {
            lemma_cast_row_typed(rows[j], to);
        }
    }
    Ok(cast)
}

/// Casts a column to the type `to`. `nullable` says whether the target
/// allows nulls.
///
/// A column of the type `to` comes back as it is. Otherwise the cast is
/// refused with `IllegalDataType` where no cast leads from the column's
/// type to `to`, and with `BadArguments` where a row fails and the target
/// allows no nulls.
pub fn cast_column(column: &DataColumn, to: DataType, nullable: bool) -> (r: Result<
    DataColumn,
    ErrorCode,
>)
    requires
        column.wf(),
    ensures
        match cast_outcome(column@, column.data_type_spec(), to, nullable) {
            Ok(rows) => r is Ok && r->Ok_0@ == rows && r->Ok_0.data_type_spec() == to
                && r->Ok_0.wf(),
            Err(kind) => r is Err && r->Err_0.kind == kind,
        },
{
    let from = column.data_type();
    if from == to {
        return Ok(column.clone());
    }
    if !from.can_cast_to(to) {
        return Err(unsupported_cast(from, to));
    }
    match column {
        DataColumn::Array(array) => match cast_array(array, to, nullable) {
            Ok(cast) => Ok(DataColumn::Array(cast)),
            Err(e) => Err(e),
        },
        DataColumn::Constant(value, rows) => {
            let ghost all = column@;
            match value.cast_to(to) {
                Some(v) => {
                    let cast = DataColumn::Constant(v, *rows);
                    proof {
                        lemma_cast_row_typed(value@, to);
                        assert(cast@ =~= cast_rows(all, to));
                        if some_row_fails(all, to) {
                            let i = choose|i: int| 0 <= i < all.len() && cast_fails(#[trigger] all[i], to);
                            assert(all[i] == value@);
                        }
                    }
                    Ok(cast)
                },
                None => {
                    if nullable || *rows == 0 {
                        let cast = DataColumn::Constant(DataValue::missing(to), *rows);
                        proof {
                            assert(cast@ =~= cast_rows(all, to));
                            if some_row_fails(all, to) {
                                let i = choose|i: int|
                                    0 <= i < all.len() && cast_fails(#[trigger] all[i], to);
                                assert(*rows > 0);
                            }
                        }
                        Ok(cast)
                    } else {
                        assert(cast_fails(all[0], to));
                        Err(failed_row(to))
                    }
                },
            }
        },
    }
}

/// A cast to one type, as a function over columns.
#[derive(Debug, PartialEq, Eq)]
pub struct CastFunction {
    pub display_name: String,
    pub cast_type: DataType,
}

impl Clone for CastFunction {
    fn clone(&self) -> (r: Self)
        ensures
            r.display_name@ == self.display_name@,
            r.cast_type == self.cast_type,
    {
        CastFunction { display_name: self.display_name.clone(), cast_type: self.cast_type }
    }
}

impl CastFunction {
    /// The cast to the type `cast_type`.
    pub fn create(display_name: String, cast_type: DataType) -> (r: Result<CastFunction, ErrorCode>)
        ensures
            r is Ok,
            r->Ok_0.display_name == display_name,
            r->Ok_0.cast_type == cast_type,
    {
        Ok(CastFunction { display_name, cast_type })
    }

    pub fn name(&self) -> (s: &'static str)
        ensures
            s@ == "CastFunction"@,
    {
        "CastFunction"
    }

    /// The type of the result: the type cast to.
    pub fn return_type(&self) -> (t: DataType)
        ensures
            t == self.cast_type,
    {
        self.cast_type
    }

    /// The column cast to the type of the function.
    pub fn eval(&self, column: &DataColumn, nullable: bool) -> (r: Result<DataColumn, ErrorCode>)
        requires
            column.wf(),
        ensures
            match cast_outcome(column@, column.data_type_spec(), self.cast_type, nullable) {
                Ok(rows) => r is Ok && r->Ok_0@ == rows && r->Ok_0.data_type_spec()
                    == self.cast_type && r->Ok_0.wf(),
                Err(kind) => r is Err && r->Err_0.kind == kind,
            },
    {
        cast_column(column, self.cast_type, nullable)
    }
}

} // verus!
