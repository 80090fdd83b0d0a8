//! Values as text.

use vstd::prelude::*;
use vstd::utf8::decode_utf8;
use vstd::utf8::encode_utf8;
use vstd::utf8::encode_utf8_decode_utf8;
use vstd::utf8::valid_utf8;
use crate::datavalues::data_value::DataValue;
use crate::datavalues::data_value::Scalar;
use crate::datavalues::decimal::decimal_string;
use crate::datavalues::decimal::decimal_text;

verus! {

/// The text of a value: `Null` for the untyped null, `NULL` for the null of
/// a type, `true` or `false` for a boolean, the decimal form of an integer,
/// and for a string the text that its bytes encode in UTF-8.
///
/// A floating-point value has no text here, nor has a string whose bytes
/// are no UTF-8.
pub open spec fn shown(v: Scalar) -> Option<Seq<char>> {
    match v {
        Scalar::Null => Some("Null"@),
        Scalar::Boolean(Some(b)) => Some(
            if b {
                "true"@
            } else {
                "false"@
            },
        ),
        Scalar::Float32(Some(_)) => None,
        Scalar::Float64(Some(_)) => None,
        Scalar::String(Some(bytes)) => if valid_utf8(bytes) {
            Some(decode_utf8(bytes))
        } else {
            None
        },
        _ => match v.int_value() {
            Some(x) => Some(decimal_text(x)),
            None => Some("NULL"@),
        },
    }
}

/// `String::from_utf8` of std: the string that consists of the given
/// bytes, where they are valid UTF-8, and nothing where they are not.
#[verifier::external_body]
fn text_of_utf8(bytes: &Vec<u8>) -> (r: Option<String>)
    ensures
        r is Some <==> valid_utf8(bytes@),
        r is Some ==> encode_utf8(r->0@) == bytes@,
{
    String::from_utf8(bytes.clone()).ok()
}

/// The decimal text of an integer.
fn integer_text(x: i128) -> (s: String)
    requires
        -0x8000_0000_0000_0000 <= x <= 0xffff_ffff_ffff_ffff,
    ensures
        s@ == decimal_text(x as int),
{
    if x < 0 {
        decimal_string(true, (-x) as u64)
    } else {
        decimal_string(false, x as u64)
    }
}

impl DataValue {
    /// The text of the value, where it has one.
    pub fn display(&self) -> (r: Option<String>)
        ensures
            match shown(self@) {
                Some(text) => r is Some && r->0@ == text,
                None => r is None,
            },
    {
        match self {
            DataValue::Null => Some(String::from_str("Null")),
            DataValue::Boolean(Some(b)) => Some(
                String::from_str(
                    if *b {
                        "true"
                    } else {
                        "false"
                    },
                ),
            ),
            DataValue::Int8(Some(v)) => Some(integer_text(*v as i128)),
            DataValue::Int16(Some(v)) => Some(integer_text(*v as i128)),
            DataValue::Int32(Some(v)) => Some(integer_text(*v as i128)),
            DataValue::Int64(Some(v)) => Some(integer_text(*v as i128)),
            DataValue::UInt8(Some(v)) => Some(integer_text(*v as i128)),
            DataValue::UInt16(Some(v)) => Some(integer_text(*v as i128)),
            DataValue::UInt32(Some(v)) => Some(integer_text(*v as i128)),
            DataValue::UInt64(Some(v)) => Some(integer_text(*v as i128)),
            DataValue::Float32(Some(_)) => None,
            DataValue::Float64(Some(_)) => None,
            DataValue::String(Some(bytes)) => {
                let text = text_of_utf8(bytes);
                proof {
                    if text is Some {
                        encode_utf8_decode_utf8(text->0@);
                    }
                }
                text
            },
            _ => Some(String::from_str("NULL")),
        }
    }
}

} // verus!
