//! A single scalar value.

use vstd::prelude::*;
use crate::datavalues::data_array::DataArray;
use crate::datavalues::data_type::DataType;
use crate::errors::ErrorCode;
use crate::errors::ErrorKind;

verus! {

/// A specific value of a data type. `None` is the null of that type.
///
/// A floating-point payload is held as its IEEE 754 bit pattern, and a string
/// payload as its bytes.
#[derive(Debug, PartialEq, Eq)]
pub enum DataValue {
    Null,
    Boolean(Option<bool>),
    Int8(Option<i8>),
    Int16(Option<i16>),
    Int32(Option<i32>),
    Int64(Option<i64>),
    UInt8(Option<u8>),
    UInt16(Option<u16>),
    UInt32(Option<u32>),
    UInt64(Option<u64>),
    Float32(Option<u32>),
    Float64(Option<u64>),
    String(Option<Vec<u8>>),
}

/// The mathematical value that a `DataValue` stands for.
pub enum Scalar {
    Null,
    Boolean(Option<bool>),
    Int8(Option<i8>),
    Int16(Option<i16>),
    Int32(Option<i32>),
    Int64(Option<i64>),
    UInt8(Option<u8>),
    UInt16(Option<u16>),
    UInt32(Option<u32>),
    UInt64(Option<u64>),
    Float32(Option<u32>),
    Float64(Option<u64>),
    String(Option<Seq<u8>>),
}

impl Scalar {
    /// The type tag of the value. Every value has one, a null too.
    pub open spec fn data_type(self) -> DataType {
        match self {
            Scalar::Null => DataType::Null,
            Scalar::Boolean(_) => DataType::Boolean,
            Scalar::Int8(_) => DataType::Int8,
            Scalar::Int16(_) => DataType::Int16,
            Scalar::Int32(_) => DataType::Int32,
            Scalar::Int64(_) => DataType::Int64,
            Scalar::UInt8(_) => DataType::UInt8,
            Scalar::UInt16(_) => DataType::UInt16,
            Scalar::UInt32(_) => DataType::UInt32,
            Scalar::UInt64(_) => DataType::UInt64,
            Scalar::Float32(_) => DataType::Float32,
            Scalar::Float64(_) => DataType::Float64,
            Scalar::String(_) => DataType::String,
        }
    }

    /// Whether the value is null: it carries no payload. That is so of the
    /// null of every type and of the untyped `Null`.
    pub open spec fn is_missing(self) -> bool {
        match self {
            Scalar::Null => true,
            Scalar::Boolean(v) => v is None,
            Scalar::Int8(v) => v is None,
            Scalar::Int16(v) => v is None,
            Scalar::Int32(v) => v is None,
            Scalar::Int64(v) => v is None,
            Scalar::UInt8(v) => v is None,
            Scalar::UInt16(v) => v is None,
            Scalar::UInt32(v) => v is None,
            Scalar::UInt64(v) => v is None,
            Scalar::Float32(v) => v is None,
            Scalar::Float64(v) => v is None,
            Scalar::String(v) => v is None,
        }
    }

    /// The payload of an integer value.
    pub open spec fn int_value(self) -> Option<int> {
        match self {
            Scalar::Int8(Some(v)) => Some(v as int),
            Scalar::Int16(Some(v)) => Some(v as int),
            Scalar::Int32(Some(v)) => Some(v as int),
            Scalar::Int64(Some(v)) => Some(v as int),
            Scalar::UInt8(Some(v)) => Some(v as int),
            Scalar::UInt16(Some(v)) => Some(v as int),
            Scalar::UInt32(Some(v)) => Some(v as int),
            Scalar::UInt64(Some(v)) => Some(v as int),
            _ => None,
        }
    }
}

/// The null of a type, for the types that have a typed null other than
/// strings; the untyped `Null` for the type `Null`.
pub open spec fn null_of(data_type: DataType) -> Option<Scalar> {
    match data_type {
        DataType::Null => Some(Scalar::Null),
        DataType::Boolean => Some(Scalar::Boolean(None)),
        DataType::Int8 => Some(Scalar::Int8(None)),
        DataType::Int16 => Some(Scalar::Int16(None)),
        DataType::Int32 => Some(Scalar::Int32(None)),
        DataType::Int64 => Some(Scalar::Int64(None)),
        DataType::UInt8 => Some(Scalar::UInt8(None)),
        DataType::UInt16 => Some(Scalar::UInt16(None)),
        DataType::UInt32 => Some(Scalar::UInt32(None)),
        DataType::UInt64 => Some(Scalar::UInt64(None)),
        DataType::Float32 => Some(Scalar::Float32(None)),
        DataType::Float64 => Some(Scalar::Float64(None)),
        _ => None,
    }
}

/// The value that stands for "no value" of a type: the null of the type, or
/// the untyped `Null` for the types that have no null of their own.
pub open spec fn missing_of(data_type: DataType) -> Scalar {
    match data_type {
        DataType::Boolean => Scalar::Boolean(None),
        DataType::Int8 => Scalar::Int8(None),
        DataType::Int16 => Scalar::Int16(None),
        DataType::Int32 => Scalar::Int32(None),
        DataType::Int64 => Scalar::Int64(None),
        DataType::UInt8 => Scalar::UInt8(None),
        DataType::UInt16 => Scalar::UInt16(None),
        DataType::UInt32 => Scalar::UInt32(None),
        DataType::UInt64 => Scalar::UInt64(None),
        DataType::Float32 => Scalar::Float32(None),
        DataType::Float64 => Scalar::Float64(None),
        DataType::String => Scalar::String(None),
        _ => Scalar::Null,
    }
}

/// The text of the failure to turn an element of an array of this type into
/// a scalar.
pub open spec fn no_scalar_message(data_type: DataType) -> Seq<char> {
    "Can't create a scalar of array of type \""@ + data_type.name_spec() + "\""@
}

/// The text of the failure to make a null of this type.
pub open spec fn no_null_message(data_type: DataType) -> Seq<char> {
    "Unsupported try_from() for data type: "@ + data_type.name_spec()
}

impl View for DataValue {
    type V = Scalar;

    open spec fn view(&self) -> Scalar {
        match self {
            DataValue::Null => Scalar::Null,
            DataValue::Boolean(v) => Scalar::Boolean(*v),
            DataValue::Int8(v) => Scalar::Int8(*v),
            DataValue::Int16(v) => Scalar::Int16(*v),
            DataValue::Int32(v) => Scalar::Int32(*v),
            DataValue::Int64(v) => Scalar::Int64(*v),
            DataValue::UInt8(v) => Scalar::UInt8(*v),
            DataValue::UInt16(v) => Scalar::UInt16(*v),
            DataValue::UInt32(v) => Scalar::UInt32(*v),
            DataValue::UInt64(v) => Scalar::UInt64(*v),
            DataValue::Float32(v) => Scalar::Float32(*v),
            DataValue::Float64(v) => Scalar::Float64(*v),
            DataValue::String(v) => Scalar::String(
                match v {
                    Some(bytes) => Some(bytes@),
                    None => None,
                },
            ),
        }
    }
}

impl Clone for DataValue {
    fn clone(&self) -> (r: Self)
        ensures
            r@ == self@,
    {
        match self {
            DataValue::Null => DataValue::Null,
            DataValue::Boolean(v) => DataValue::Boolean(*v),
            DataValue::Int8(v) => DataValue::Int8(*v),
            DataValue::Int16(v) => DataValue::Int16(*v),
            DataValue::Int32(v) => DataValue::Int32(*v),
            DataValue::Int64(v) => DataValue::Int64(*v),
            DataValue::UInt8(v) => DataValue::UInt8(*v),
            DataValue::UInt16(v) => DataValue::UInt16(*v),
            DataValue::UInt32(v) => DataValue::UInt32(*v),
            DataValue::UInt64(v) => DataValue::UInt64(*v),
            DataValue::Float32(v) => DataValue::Float32(*v),
            DataValue::Float64(v) => DataValue::Float64(*v),
            DataValue::String(v) => match v {
                Some(bytes) => DataValue::String(Some(bytes.clone())),
                None => DataValue::String(None),
            },
        }
    }
}

impl DataValue {
    /// Whether the value is null: it carries no payload. That is so of the
    /// null of every type and of the untyped `Null`.
    pub fn is_null(&self) -> (b: bool)
        ensures
            b == self@.is_missing(),
    {
        match self {
            DataValue::Null => true,
            DataValue::Boolean(v) => v.is_none(),
            DataValue::Int8(v) => v.is_none(),
            DataValue::Int16(v) => v.is_none(),
            DataValue::Int32(v) => v.is_none(),
            DataValue::Int64(v) => v.is_none(),
            DataValue::UInt8(v) => v.is_none(),
            DataValue::UInt16(v) => v.is_none(),
            DataValue::UInt32(v) => v.is_none(),
            DataValue::UInt64(v) => v.is_none(),
            DataValue::Float32(v) => v.is_none(),
            DataValue::Float64(v) => v.is_none(),
            DataValue::String(v) => v.is_none(),
        }
    }

    /// The type tag of the value.
    pub fn data_type(&self) -> (t: DataType)
        ensures
            t == self@.data_type(),
    {
        match self {
            DataValue::Null => DataType::Null,
            DataValue::Boolean(_) => DataType::Boolean,
            DataValue::Int8(_) => DataType::Int8,
            DataValue::Int16(_) => DataType::Int16,
            DataValue::Int32(_) => DataType::Int32,
            DataValue::Int64(_) => DataType::Int64,
            DataValue::UInt8(_) => DataType::UInt8,
            DataValue::UInt16(_) => DataType::UInt16,
            DataValue::UInt32(_) => DataType::UInt32,
            DataValue::UInt64(_) => DataType::UInt64,
            DataValue::Float32(_) => DataType::Float32,
            DataValue::Float64(_) => DataType::Float64,
            DataValue::String(_) => DataType::String,
        }
    }

    /// The value that stands for "no value" of a type.
    pub fn missing(data_type: DataType) -> (v: DataValue)
        ensures
            v@ == missing_of(data_type),
    {
        match data_type {
            DataType::Boolean => DataValue::Boolean(None),
            DataType::Int8 => DataValue::Int8(None),
            DataType::Int16 => DataValue::Int16(None),
            DataType::Int32 => DataValue::Int32(None),
            DataType::Int64 => DataValue::Int64(None),
            DataType::UInt8 => DataValue::UInt8(None),
            DataType::UInt16 => DataValue::UInt16(None),
            DataType::UInt32 => DataValue::UInt32(None),
            DataType::UInt64 => DataValue::UInt64(None),
            DataType::Float32 => DataValue::Float32(None),
            DataType::Float64 => DataValue::Float64(None),
            DataType::String => DataValue::String(None),
            _ => DataValue::Null,
        }
    }

    /// An array of `size` rows that all hold this value.
    pub fn to_array(&self, size: usize) -> (r: Result<DataArray, ErrorCode>)
        ensures
            r is Ok,
            r->Ok_0.wf(),
            r->Ok_0.data_type == self@.data_type(),
            r->Ok_0@ == Seq::new(size as nat, |i: int| self@),
    {
        let mut values: Vec<DataValue> = Vec::new();
        let mut i: usize = 0;
        while i < size
            invariant
                i <= size,
                values.len() == i,
                forall|j: int| 0 <= j < i ==> (#[trigger] values[j])@ == self@,
            decreases size - i,
        {
            values.push(self.clone());
            i = i + 1;
        }
        let array = DataArray { data_type: self.data_type(), values };
        assert(array@ =~= Seq::new(size as nat, |i: int| self@));
        Ok(array)
    }

    /// The value of `array` at row `index`. Arrays of the type `Null`, and of
    /// types whose values have no scalar form, are refused.
    pub fn try_from_array(array: &DataArray, index: usize) -> (r: Result<DataValue, ErrorCode>)
        requires
            index < array@.len(),
        ensures
            array.data_type.has_scalars_spec() ==> r is Ok && r->Ok_0@ == array@[index as int],
            !array.data_type.has_scalars_spec() ==> r is Err && r->Err_0.kind == ErrorKind::Internal
                && r->Err_0.message@ == no_scalar_message(array.data_type),
    {
        if array.data_type.has_scalars() {
            Ok(array.values[index].clone())
        } else {
            let mut message = String::from_str("Can't create a scalar of array of type \"");
            message.append(array.data_type.name());
            message.append("\"");
            Err(ErrorCode::create(ErrorKind::Internal, message))
        }
    }

    /// The null of a type. Strings, dates and timestamps are refused.
    pub fn try_from(data_type: &DataType) -> (r: Result<DataValue, ErrorCode>)
        ensures
            match null_of(*data_type) {
                Some(v) => r is Ok && r->Ok_0@ == v,
                None => r is Err && r->Err_0.kind == ErrorKind::Internal && r->Err_0.message@
                    == no_null_message(*data_type),
            },
    {
        match data_type {
            DataType::Null => Ok(DataValue::Null),
            DataType::Boolean => Ok(DataValue::Boolean(None)),
            DataType::Int8 => Ok(DataValue::Int8(None)),
            DataType::Int16 => Ok(DataValue::Int16(None)),
            DataType::Int32 => Ok(DataValue::Int32(None)),
            DataType::Int64 => Ok(DataValue::Int64(None)),
            DataType::UInt8 => Ok(DataValue::UInt8(None)),
            DataType::UInt16 => Ok(DataValue::UInt16(None)),
            DataType::UInt32 => Ok(DataValue::UInt32(None)),
            DataType::UInt64 => Ok(DataValue::UInt64(None)),
            DataType::Float32 => Ok(DataValue::Float32(None)),
            DataType::Float64 => Ok(DataValue::Float64(None)),
            _ => {
                let mut message = String::from_str("Unsupported try_from() for data type: ");
                message.append(data_type.name());
                Err(ErrorCode::create(ErrorKind::Internal, message))
            },
        }
    }
}

} // verus!
