//! A column of a block: materialized, or one value repeated.

use vstd::prelude::*;
use crate::datavalues::data_array::DataArray;
use crate::datavalues::data_type::DataType;
use crate::datavalues::data_value::DataValue;
use crate::datavalues::data_value::Scalar;

verus! {

/// A column is either an array with one value per row, or a single value
/// that stands for the same value in each of a number of rows. Both forms
/// read alike.
#[derive(Debug, PartialEq, Eq)]
pub enum DataColumn {
    Array(DataArray),
    Constant(DataValue, usize),
}

impl View for DataColumn {
    type V = Seq<Scalar>;

    open spec fn view(&self) -> Seq<Scalar> {
        match self {
            DataColumn::Array(array) => array@,
            DataColumn::Constant(value, rows) => Seq::new(*rows as nat, |i: int| value@),
        }
    }
}

impl Clone for DataColumn {
    fn clone(&self) -> (r: Self)
        ensures
            r@ == self@,
            r.data_type_spec() == self.data_type_spec(),
            self.wf() ==> r.wf(),
            r.is_constant_spec() == self.is_constant_spec(),
    {
        match self {
            DataColumn::Array(array) => DataColumn::Array(array.clone()),
            DataColumn::Constant(value, rows) => {
                let r = DataColumn::Constant(value.clone(), *rows);
                assert(r@ =~= self@);
                r
            },
        }
    }
}

impl DataColumn {
    /// The array form is well formed as an array; the constant form always is.
    pub open spec fn wf(&self) -> bool {
        match self {
            DataColumn::Array(array) => array.wf(),
            DataColumn::Constant(_, _) => true,
        }
    }

    /// The type of the rows.
    pub open spec fn data_type_spec(&self) -> DataType {
        match self {
            DataColumn::Array(array) => array.data_type,
            DataColumn::Constant(value, _) => value@.data_type(),
        }
    }

    /// The value of a constant; the first row of an array.
    pub open spec fn first_value(&self) -> Scalar {
        match self {
            DataColumn::Array(array) => array@[0],
            DataColumn::Constant(value, _) => value@,
        }
    }

    /// Whether the column is held in the constant form.
    pub open spec fn is_constant_spec(&self) -> bool {
        self is Constant
    }

    /// Whether the column is well formed.
    pub fn is_well_formed(&self) -> (b: bool)
        ensures
            b == self.wf(),
    {
        match self {
            DataColumn::Array(array) => array.is_well_formed(),
            DataColumn::Constant(_, _) => true,
        }
    }

    /// The type of the rows.
    pub fn data_type(&self) -> (t: DataType)
        ensures
            t == self.data_type_spec(),
    {
        match self {
            DataColumn::Array(array) => array.data_type(),
            DataColumn::Constant(value, _) => value.data_type(),
        }
    }

    /// Whether the column is held in the constant form.
    pub fn is_constant(&self) -> (b: bool)
        ensures
            b == self.is_constant_spec(),
    {
        match self {
            DataColumn::Array(_) => false,
            DataColumn::Constant(_, _) => true,
        }
    }

    /// The number of rows.
    pub fn len(&self) -> (n: usize)
        ensures
            n == self@.len(),
    {
        match self {
            DataColumn::Array(array) => array.len(),
            DataColumn::Constant(_, rows) => *rows,
        }
    }

    /// The value at row `index`, whatever the form of the column.
    pub fn get(&self, index: usize) -> (v: DataValue)
        requires
            index < self@.len(),
        ensures
            v@ == self@[index as int],
    {
        match self {
            DataColumn::Array(array) => array.get(index),
            DataColumn::Constant(value, _) => value.clone(),
        }
    }

    /// The column as an array with one value per row. The rows read as
    /// before.
    pub fn to_array(&self) -> (r: DataArray)
        ensures
            self.wf() ==> r.wf(),
            r.data_type == self.data_type_spec(),
            r@ == self@,
    {
        match self {
            DataColumn::Array(array) => array.clone(),
            DataColumn::Constant(value, rows) => {
                let made = value.to_array(*rows);
                match made {
                    Ok(array) => array,
                    Err(_) => DataArray { data_type: value.data_type(), values: Vec::new() },
                }
            },
        }
    }

    /// The column as a constant of `size` rows, where it stands for one
    /// value: a constant, or an array of a single row. Any other array comes
    /// back as it is.
    pub fn resize_constant(&self, size: usize) -> (r: DataColumn)
        ensures
            self.wf() ==> r.wf() && r.data_type_spec() == self.data_type_spec(),
            self is Constant || self@.len() == 1 ==> r is Constant && r@ == Seq::new(
                size as nat,
                |i: int| self.first_value(),
            ),
            !(self is Constant || self@.len() == 1) ==> r is Array && r@ == self@,
    {
        match self {
            DataColumn::Array(array) => {
                if array.len() == 1 {
                    let value = array.get(0);
                    let r = DataColumn::Constant(value, size);
                    assert(r@ =~= Seq::new(size as nat, |i: int| self.first_value()));
                    assert(array.values@[0]@ == array@[0]);
                    r
                } else {
                    DataColumn::Array(array.clone())
                }
            },
            DataColumn::Constant(value, _) => {
                let r = DataColumn::Constant(value.clone(), size);
                assert(r@ =~= Seq::new(size as nat, |i: int| self.first_value()));
                r
            },
        }
    }

    /// The rows from `offset` on, `length` of them.
    pub fn slice(&self, offset: usize, length: usize) -> (r: DataColumn)
        requires
            offset + length <= self@.len(),
        ensures
            r@ == self@.subrange(offset as int, offset + length),
            r.data_type_spec() == self.data_type_spec(),
            self.wf() ==> r.wf(),
    {
        match self {
            DataColumn::Array(array) => DataColumn::Array(array.slice(offset, length)),
            DataColumn::Constant(value, _) => {
                let r = DataColumn::Constant(value.clone(), length);
                assert(r@ =~= self@.subrange(offset as int, offset + length));
                r
            },
        }
    }
}

} // verus!
