//! The closed set of data types.

use vstd::prelude::*;

verus! {

/// The type of a column or of a scalar value.
#[derive(Clone, Copy, Debug, PartialEq, Eq, Structural)]
pub enum DataType {
    Null,
    Boolean,
    Int8,
    Int16,
    Int32,
    Int64,
    UInt8,
    UInt16,
    UInt32,
    UInt64,
    Float32,
    Float64,
    String,
    Date,
    Timestamp,
}

impl DataType {
    /// The signed integer types.
    pub open spec fn is_signed_spec(self) -> bool {
        self == DataType::Int8 || self == DataType::Int16 || self == DataType::Int32 || self
            == DataType::Int64
    }

    /// The unsigned integer types.
    pub open spec fn is_unsigned_spec(self) -> bool {
        self == DataType::UInt8 || self == DataType::UInt16 || self == DataType::UInt32 || self
            == DataType::UInt64
    }

    /// The eight integer types.
    pub open spec fn is_integer_spec(self) -> bool {
        self.is_signed_spec() || self.is_unsigned_spec()
    }

    /// The two floating-point types.
    pub open spec fn is_floating_spec(self) -> bool {
        self == DataType::Float32 || self == DataType::Float64
    }

    /// The least value of an integer type; 0 for any other type.
    pub open spec fn int_min(self) -> int {
        match self {
            DataType::Int8 => i8::MIN as int,
            DataType::Int16 => i16::MIN as int,
            DataType::Int32 => i32::MIN as int,
            DataType::Int64 => i64::MIN as int,
            _ => 0,
        }
    }

    /// The greatest value of an integer type; 0 for any other type.
    pub open spec fn int_max(self) -> int {
        match self {
            DataType::Int8 => i8::MAX as int,
            DataType::Int16 => i16::MAX as int,
            DataType::Int32 => i32::MAX as int,
            DataType::Int64 => i64::MAX as int,
            DataType::UInt8 => u8::MAX as int,
            DataType::UInt16 => u16::MAX as int,
            DataType::UInt32 => u32::MAX as int,
            DataType::UInt64 => u64::MAX as int,
            _ => 0,
        }
    }

    /// The types whose rows can be read as scalar values: all but `Null`,
    /// `Date` and `Timestamp`.
    pub open spec fn has_scalars_spec(self) -> bool {
        self != DataType::Null && self != DataType::Date && self != DataType::Timestamp
    }

    /// The name of the type as it appears in messages.
    pub open spec fn name_spec(self) -> Seq<char> {
        match self {
            DataType::Null => "Null"@,
            DataType::Boolean => "Boolean"@,
            DataType::Int8 => "Int8"@,
            DataType::Int16 => "Int16"@,
            DataType::Int32 => "Int32"@,
            DataType::Int64 => "Int64"@,
            DataType::UInt8 => "UInt8"@,
            DataType::UInt16 => "UInt16"@,
            DataType::UInt32 => "UInt32"@,
            DataType::UInt64 => "UInt64"@,
            DataType::Float32 => "Float32"@,
            DataType::Float64 => "Float64"@,
            DataType::String => "String"@,
            DataType::Date => "Date"@,
            DataType::Timestamp => "Timestamp"@,
        }
    }

    pub fn is_signed(&self) -> (b: bool)
        ensures
            b == self.is_signed_spec(),
    {
        match self {
            DataType::Int8 | DataType::Int16 | DataType::Int32 | DataType::Int64 => true,
            _ => false,
        }
    }

    pub fn is_unsigned(&self) -> (b: bool)
        ensures
            b == self.is_unsigned_spec(),
    {
        match self {
            DataType::UInt8 | DataType::UInt16 | DataType::UInt32 | DataType::UInt64 => true,
            _ => false,
        }
    }

    pub fn is_integer(&self) -> (b: bool)
        ensures
            b == self.is_integer_spec(),
    {
        self.is_signed() || self.is_unsigned()
    }

    pub fn has_scalars(&self) -> (b: bool)
        ensures
            b == self.has_scalars_spec(),
    {
        match self {
            DataType::Null | DataType::Date | DataType::Timestamp => false,
            _ => true,
        }
    }

    pub fn is_floating(&self) -> (b: bool)
        ensures
            b == self.is_floating_spec(),
    {
        match self {
            DataType::Float32 | DataType::Float64 => true,
            _ => false,
        }
    }

    /// The name of the type as it appears in messages.
    pub fn name(&self) -> (s: &'static str)
        ensures
            s@ == self.name_spec(),
    {
        match self {
            DataType::Null => "Null",
            DataType::Boolean => "Boolean",
            DataType::Int8 => "Int8",
            DataType::Int16 => "Int16",
            DataType::Int32 => "Int32",
            DataType::Int64 => "Int64",
            DataType::UInt8 => "UInt8",
            DataType::UInt16 => "UInt16",
            DataType::UInt32 => "UInt32",
            DataType::UInt64 => "UInt64",
            DataType::Float32 => "Float32",
            DataType::Float64 => "Float64",
            DataType::String => "String",
            DataType::Date => "Date",
            DataType::Timestamp => "Timestamp",
        }
    }
}

} // verus!
