//! Fields and schemas.

use vstd::prelude::*;
use crate::datavalues::data_type::DataType;

verus! {

/// A named, typed column of a schema.
#[derive(Debug, PartialEq, Eq)]
pub struct DataField {
    pub name: String,
    pub data_type: DataType,
    pub nullable: bool,
}

/// What a field says: its name, its type and whether nulls are allowed.
pub struct FieldSpec {
    pub name: Seq<char>,
    pub data_type: DataType,
    pub nullable: bool,
}

impl View for DataField {
    type V = FieldSpec;

    open spec fn view(&self) -> FieldSpec {
        FieldSpec { name: self.name@, data_type: self.data_type, nullable: self.nullable }
    }
}

impl Clone for DataField {
    fn clone(&self) -> (r: Self)
        ensures
            r@ == self@,
    {
        DataField {
            name: self.name.clone(),
            data_type: self.data_type,
            nullable: self.nullable,
        }
    }
}

impl DataField {
    pub fn new(name: &str, data_type: DataType, nullable: bool) -> (f: DataField)
        ensures
            f@ == (FieldSpec { name: name@, data_type, nullable }),
    {
        DataField { name: String::from_str(name), data_type, nullable }
    }

    pub fn name(&self) -> (s: &String)
        ensures
            s@ == self@.name,
    {
        &self.name
    }

    pub fn data_type(&self) -> (t: DataType)
        ensures
            t == self@.data_type,
    {
        self.data_type
    }

    pub fn is_nullable(&self) -> (b: bool)
        ensures
            b == self@.nullable,
    {
        self.nullable
    }

    /// Whether two fields say the same.
    pub fn same_as(&self, other: &DataField) -> (b: bool)
        ensures
            b == (self@ == other@),
    {
        self.name == other.name && self.data_type == other.data_type && self.nullable
            == other.nullable
    }
}

/// An ordered sequence of fields.
#[derive(Debug, PartialEq, Eq)]
pub struct DataSchema {
    pub fields: Vec<DataField>,
}

impl View for DataSchema {
    type V = Seq<FieldSpec>;

    open spec fn view(&self) -> Seq<FieldSpec> {
        Seq::new(self.fields@.len(), |i: int| self.fields@[i]@)
    }
}

impl Clone for DataSchema {
    fn clone(&self) -> (r: Self)
        ensures
            r@ == self@,
    {
        let mut fields: Vec<DataField> = Vec::new();
        let mut i: usize = 0;
        while i < self.fields.len()
            invariant
                i <= self.fields.len(),
                fields.len() == i,
                forall|j: int| 0 <= j < i ==> (#[trigger] fields[j])@ == self.fields[j]@,
            decreases self.fields.len() - i,
        {
            fields.push(self.fields[i].clone());
            i = i + 1;
        }
        let r = DataSchema { fields };
        assert(r@ =~= self@);
        r
    }
}

impl DataSchema {
    /// The schema of the given fields, in their order.
    pub fn new(fields: Vec<DataField>) -> (s: DataSchema)
        ensures
            s.fields == fields,
    {
        DataSchema { fields }
    }

    /// The schema without fields.
    pub fn empty() -> (s: DataSchema)
        ensures
            s@ == Seq::<FieldSpec>::empty(),
    {
        let s = DataSchema { fields: Vec::new() };
        assert(s@ =~= Seq::<FieldSpec>::empty());
        s
    }

    pub fn fields(&self) -> (f: &Vec<DataField>)
        ensures
            f == &self.fields,
    {
        &self.fields
    }

    pub fn num_fields(&self) -> (n: usize)
        ensures
            n == self@.len(),
    {
        self.fields.len()
    }

    pub fn field(&self, index: usize) -> (f: &DataField)
        requires
            index < self@.len(),
        ensures
            f@ == self@[index as int],
    {
        &self.fields[index]
    }

    /// Two schemas are equal exactly when their field sequences are.
    pub fn same_as(&self, other: &DataSchema) -> (b: bool)
        ensures
            b == (self@ == other@),
    {
        if self.fields.len() != other.fields.len() {
            assert(self@.len() != other@.len());
            return false;
        }
        let mut i: usize = 0;
        while i < self.fields.len()
            invariant
                i <= self.fields.len(),
                self.fields.len() == other.fields.len(),
                forall|j: int| 0 <= j < i ==> (#[trigger] self@[j]) == other@[j],
            decreases self.fields.len() - i,
        {
            if !self.fields[i].same_as(&other.fields[i]) {
                assert(self@[i as int] != other@[i as int]);
                return false;
            }
            i = i + 1;
        }
        assert(self@ =~= other@);
        true
    }
}

} // verus!
