//! The order in which values of one type are compared.
//!
//! Booleans are ordered with `false` first, integers by value, strings by
//! their bytes, and floating-point values by the total order of IEEE 754,
//! which places negative zero before positive zero and orders the NaNs by
//! sign and payload.

use vstd::prelude::*;
use crate::datavalues::data_value::DataValue;
use crate::datavalues::data_value::Scalar;

verus! {

/// The place of a 32-bit floating-point bit pattern in the total order.
pub open spec fn float32_key(bits: u32) -> int {
    if bits >= 0x8000_0000u32 {
        0x7fff_ffff - bits
    } else {
        bits as int
    }
}

/// The place of a 64-bit floating-point bit pattern in the total order.
pub open spec fn float64_key(bits: u64) -> int {
    if bits >= 0x8000_0000_0000_0000u64 {
        0x7fff_ffff_ffff_ffff - bits
    } else {
        bits as int
    }
}

/// The integer by which a present value that is not a string is ordered
/// among the values of its type.
pub open spec fn order_key(v: Scalar) -> Option<int> {
    match v {
        Scalar::Boolean(Some(b)) => Some(
            if b {
                1int
            } else {
                0int
            },
        ),
        Scalar::Float32(Some(bits)) => Some(float32_key(bits)),
        Scalar::Float64(Some(bits)) => Some(float64_key(bits)),
        _ => v.int_value(),
    }
}

/// Byte strings in dictionary order: a proper prefix comes first.
pub open spec fn bytes_le(a: Seq<u8>, b: Seq<u8>) -> bool
    decreases a.len(),
{
    if a.len() == 0 {
        true
    } else if b.len() == 0 {
        false
    } else if a[0] != b[0] {
        a[0] < b[0]
    } else {
        bytes_le(a.drop_first(), b.drop_first())
    }
}

/// `a` comes no later than `b`. Holds only between two present values of one
/// type.
pub open spec fn value_le(a: Scalar, b: Scalar) -> bool {
    &&& a.data_type() == b.data_type()
    &&& !a.is_missing()
    &&& !b.is_missing()
    &&& match (a, b) {
        (Scalar::String(Some(x)), Scalar::String(Some(y))) => bytes_le(x, y),
        _ => order_key(a) is Some && order_key(b) is Some && order_key(a)->0 <= order_key(b)->0,
    }
}

/// Of two byte strings, one comes no later than the other.
pub proof fn lemma_bytes_le_total(a: Seq<u8>, b: Seq<u8>)
    ensures
        bytes_le(a, b) || bytes_le(b, a),
    decreases a.len(),
{
    if a.len() > 0 && b.len() > 0 && a[0] == b[0] {
        lemma_bytes_le_total(a.drop_first(), b.drop_first());
    }
}

/// The order of byte strings is transitive.
pub proof fn lemma_bytes_le_transitive(a: Seq<u8>, b: Seq<u8>, c: Seq<u8>)
    requires
        bytes_le(a, b),
        bytes_le(b, c),
    ensures
        bytes_le(a, c),
    decreases a.len(),
{
    if a.len() > 0 && b.len() > 0 && c.len() > 0 && a[0] == b[0] && b[0] == c[0] {
        lemma_bytes_le_transitive(a.drop_first(), b.drop_first(), c.drop_first());
    }
}

/// Two byte strings that each come no later than the other are equal.
pub proof fn lemma_bytes_le_antisymmetric(a: Seq<u8>, b: Seq<u8>)
    requires
        bytes_le(a, b),
        bytes_le(b, a),
    ensures
        a == b,
    decreases a.len(),
{
    if a.len() == 0 {
        assert(a =~= b);
    } else {
        lemma_bytes_le_antisymmetric(a.drop_first(), b.drop_first());
        assert(a =~= seq![a[0]] + a.drop_first());
        assert(b =~= seq![b[0]] + b.drop_first());
    }
}

/// Every byte string comes no later than itself.
pub proof fn lemma_bytes_le_reflexive(a: Seq<u8>)
    ensures
        bytes_le(a, a),
    decreases a.len(),
{
    if a.len() > 0 {
        lemma_bytes_le_reflexive(a.drop_first());
    }
}

/// A present value comes no later than itself.
pub proof fn lemma_value_le_reflexive(a: Scalar)
    requires
        !a.is_missing(),
    ensures
        value_le(a, a),
{
    if let Scalar::String(Some(x)) = a {
        lemma_bytes_le_reflexive(x);
    }
}

/// Of two present values of one type, one comes no later than the other.
pub proof fn lemma_value_le_total(a: Scalar, b: Scalar)
    requires
        a.data_type() == b.data_type(),
        !a.is_missing(),
        !b.is_missing(),
    ensures
        value_le(a, b) || value_le(b, a),
{
    if let Scalar::String(Some(x)) = a {
        if let Scalar::String(Some(y)) = b {
            lemma_bytes_le_total(x, y);
        }
    }
}

/// The order of values is transitive.
pub proof fn lemma_value_le_transitive(a: Scalar, b: Scalar, c: Scalar)
    requires
        value_le(a, b),
        value_le(b, c),
    ensures
        value_le(a, c),
{
    if let Scalar::String(Some(x)) = a {
        if let Scalar::String(Some(y)) = b {
            if let Scalar::String(Some(z)) = c {
                lemma_bytes_le_transitive(x, y, z);
            }
        }
    }
}

/// Two values that each come no later than the other are the same value.
pub proof fn lemma_value_le_antisymmetric(a: Scalar, b: Scalar)
    requires
        value_le(a, b),
        value_le(b, a),
    ensures
        a == b,
{
    if let Scalar::String(Some(x)) = a {
        if let Scalar::String(Some(y)) = b {
            lemma_bytes_le_antisymmetric(x, y);
        }
    }
}

/// Whether `a` comes no later than `b` in dictionary order.
pub fn bytes_le_exec(a: &Vec<u8>, b: &Vec<u8>) -> (r: bool)
    ensures
        r == bytes_le(a@, b@),
{
    let mut i: usize = 0;
    assert(a@.skip(0) =~= a@ && b@.skip(0) =~= b@);
    while i < a.len() && i < b.len()
        invariant
            i <= a.len(),
            i <= b.len(),
            bytes_le(a@, b@) == bytes_le(a@.skip(i as int), b@.skip(i as int)),
        decreases a.len() - i,
    {
        let ghost ra = a@.skip(i as int);
        let ghost rb = b@.skip(i as int);
        assert(ra[0] == a@[i as int] && rb[0] == b@[i as int]);
        if a[i] != b[i] {
            return a[i] < b[i];
        }
        assert(ra.drop_first() =~= a@.skip(i + 1));
        assert(rb.drop_first() =~= b@.skip(i + 1));
        i = i + 1;
    }
    assert(a@.skip(i as int).len() == a.len() - i);
    assert(b@.skip(i as int).len() == b.len() - i);
    i == a.len()
}

impl DataValue {
    /// The integer by which the value is ordered among those of its type;
    /// `None` for strings and for values without a payload.
    pub fn order_key(&self) -> (k: Option<i128>)
        ensures
            k is Some == order_key(self@) is Some,
            k is Some ==> k->0 == order_key(self@)->0,
    {
        match self {
            DataValue::Boolean(Some(b)) => Some(
                if *b {
                    1i128
                } else {
                    0i128
                },
            ),
            DataValue::Int8(Some(v)) => Some(*v as i128),
            DataValue::Int16(Some(v)) => Some(*v as i128),
            DataValue::Int32(Some(v)) => Some(*v as i128),
            DataValue::Int64(Some(v)) => Some(*v as i128),
            DataValue::UInt8(Some(v)) => Some(*v as i128),
            DataValue::UInt16(Some(v)) => Some(*v as i128),
            DataValue::UInt32(Some(v)) => Some(*v as i128),
            DataValue::UInt64(Some(v)) => Some(*v as i128),
            DataValue::Float32(Some(bits)) => Some(
                if *bits >= 0x8000_0000u32 {
                    0x7fff_ffffi128 - (*bits as i128)
                } else {
                    *bits as i128
                },
            ),
            DataValue::Float64(Some(bits)) => Some(
                if *bits >= 0x8000_0000_0000_0000u64 {
                    0x7fff_ffff_ffff_ffffi128 - (*bits as i128)
                } else {
                    *bits as i128
                },
            ),
            _ => None,
        }
    }

    /// Whether the value carries no payload: whether it is null.
    pub fn is_missing(&self) -> (b: bool)
        ensures
            b == self@.is_missing(),
    {
        self.is_null()
    }

    /// Whether `self` comes no later than `other` in the order of their type.
    pub fn le(&self, other: &DataValue) -> (r: bool)
        ensures
            r == value_le(self@, other@),
    {
        if self.data_type() != other.data_type() || self.is_missing() || other.is_missing() {
            return false;
        }
        match (self, other) {
            (DataValue::String(Some(x)), DataValue::String(Some(y))) => bytes_le_exec(x, y),
            _ => {
                let ka = self.order_key();
                let kb = other.order_key();
                match (ka, kb) {
                    (Some(x), Some(y)) => x <= y,
                    _ => false,
                }
            },
        }
    }
}

} // verus!
