//! A materialized column: one value per row.

use vstd::prelude::*;
use crate::datavalues::data_type::DataType;
use crate::datavalues::data_value::DataValue;
use crate::datavalues::data_value::Scalar;
use crate::errors::ErrorCode;
use crate::errors::ErrorKind;

verus! {

/// A typed sequence of values, one per row.
#[derive(Debug, PartialEq, Eq)]
pub struct DataArray {
    pub data_type: DataType,
    pub values: Vec<DataValue>,
}

impl View for DataArray {
    type V = Seq<Scalar>;

    open spec fn view(&self) -> Seq<Scalar> {
        Seq::new(self.values@.len(), |i: int| self.values@[i]@)
    }
}

/// Every value of `rows` has the type `data_type`.
pub open spec fn all_of_type(rows: Seq<Scalar>, data_type: DataType) -> bool {
    forall|i: int| 0 <= i < rows.len() ==> (#[trigger] rows[i]).data_type() == data_type
}

/// The number of rows of `rows` that carry no payload.
pub open spec fn count_missing(rows: Seq<Scalar>) -> nat
    decreases rows.len(),
{
    if rows.len() == 0 {
        0
    } else {
        count_missing(rows.drop_last()) + if rows.last().is_missing() {
            1nat
        } else {
            0nat
        }
    }
}

/// No more rows are missing than there are rows.
pub proof fn lemma_count_missing_bound(rows: Seq<Scalar>)
    ensures
        count_missing(rows) <= rows.len(),
    decreases rows.len(),
{
    if rows.len() > 0 {
        lemma_count_missing_bound(rows.drop_last());
    }
}

impl Clone for DataArray {
    fn clone(&self) -> (r: Self)
        ensures
            r.data_type == self.data_type,
            r@ == self@,
            self.wf() ==> r.wf(),
    {
        let mut values: Vec<DataValue> = Vec::new();
        let mut i: usize = 0;
        while i < self.values.len()
            invariant
                i <= self.values.len(),
                values.len() == i,
                forall|j: int| 0 <= j < i ==> (#[trigger] values[j])@ == self.values[j]@,
            decreases self.values.len() - i,
        {
            values.push(self.values[i].clone());
            i = i + 1;
        }
        let r = DataArray { data_type: self.data_type, values };
        assert(r@ =~= self@);
        assert(self.wf() ==> r.wf()) by {
            if self.wf() {
                assert forall|j: int| 0 <= j < r.values@.len() implies (#[trigger] r.values@[j])@.data_type()
                    == r.data_type by {
                    assert(self.values@[j]@.data_type() == self.data_type);
                }
            }
        }
        r
    }
}

impl DataArray {
    /// Every row holds a value of the array's type.
    pub open spec fn wf(&self) -> bool {
        forall|i: int|
            0 <= i < self.values@.len() ==> (#[trigger] self.values@[i])@.data_type()
                == self.data_type
    }

    /// An array of the given type over `values`. Fails with `BadArguments`
    /// when some value is of another type.
    pub fn try_create(data_type: DataType, values: Vec<DataValue>) -> (r: Result<
        DataArray,
        ErrorCode,
    >)
        ensures
            all_of_type(Seq::new(values@.len(), |i: int| values@[i]@), data_type) ==> r is Ok
                && r->Ok_0.wf() && r->Ok_0.data_type == data_type && r->Ok_0.values == values,
            !all_of_type(Seq::new(values@.len(), |i: int| values@[i]@), data_type) ==> r is Err
                && r->Err_0.kind == ErrorKind::BadArguments,
    {
        let ghost rows = Seq::new(values@.len(), |i: int| values@[i]@);
        let mut i: usize = 0;
        while i < values.len()
            invariant
                i <= values.len(),
                rows == Seq::new(values@.len(), |i: int| values@[i]@),
                forall|j: int| 0 <= j < i ==> (#[trigger] rows[j]).data_type() == data_type,
            decreases values.len() - i,
        {
            if values[i].data_type() != data_type {
                assert(rows[i as int].data_type() != data_type);
                return Err(
                    ErrorCode::create(
                        ErrorKind::BadArguments,
                        String::from_str("a value of an array is not of the array's type"),
                    ),
                );
            }
            i = i + 1;
        }
        let array = DataArray { data_type, values };
        assert(array.wf()) by {
            assert forall|j: int| 0 <= j < array.values@.len() implies (
            #[trigger] array.values@[j])@.data_type() == data_type by {
                assert(rows[j].data_type() == data_type);
            }
        }
        Ok(array)
    }

    /// Whether every row holds a value of the array's type.
    pub fn is_well_formed(&self) -> (b: bool)
        ensures
            b == self.wf(),
    {
        let mut i: usize = 0;
        while i < self.values.len()
            invariant
                i <= self.values.len(),
                forall|j: int|
                    0 <= j < i ==> (#[trigger] self.values@[j])@.data_type() == self.data_type,
            decreases self.values.len() - i,
        {
            if self.values[i].data_type() != self.data_type {
                return false;
            }
            i = i + 1;
        }
        true
    }

    /// The type of the rows.
    pub fn data_type(&self) -> (t: DataType)
        ensures
            t == self.data_type,
    {
        self.data_type
    }

    /// The number of rows.
    pub fn len(&self) -> (n: usize)
        ensures
            n == self@.len(),
    {
        self.values.len()
    }

    /// The value at row `index`.
    pub fn get(&self, index: usize) -> (v: DataValue)
        requires
            index < self@.len(),
        ensures
            v@ == self@[index as int],
    {
        self.values[index].clone()
    }

    /// The rows from `offset` on, `length` of them.
    pub fn slice(&self, offset: usize, length: usize) -> (r: DataArray)
        requires
            offset + length <= self@.len(),
        ensures
            r.data_type == self.data_type,
            r@ == self@.subrange(offset as int, offset + length),
            self.wf() ==> r.wf(),
    {
        let mut values: Vec<DataValue> = Vec::new();
        let mut i: usize = 0;
        while i < length
            invariant
                i <= length,
                offset + length <= self.values.len(),
                values.len() == i,
                forall|j: int| 0 <= j < i ==> (#[trigger] values[j])@ == self.values[offset + j]@,
            decreases length - i,
        {
            values.push(self.values[offset + i].clone());
            i = i + 1;
        }
        let r = DataArray { data_type: self.data_type, values };
        assert(r@ =~= self@.subrange(offset as int, offset + length));
        assert(self.wf() ==> r.wf()) by {
            if self.wf() {
                assert forall|j: int| 0 <= j < r.values@.len() implies (#[trigger] r.values@[j])@.data_type()
                    == r.data_type by {
                    assert(self.values@[offset + j]@.data_type() == self.data_type);
                }
            }
        }
        r
    }
}

} // verus!
