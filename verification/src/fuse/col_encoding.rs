//! How the columns of a block are encoded in its file.

use vstd::prelude::*;
use crate::datavalues::data_type::DataType;

verus! {

/// The encodings of the values of a column.
#[derive(Clone, Copy, Debug, PartialEq, Eq, Structural)]
pub enum Encoding {
    /// The values one after the other, as they are.
    Plain,
    /// The differences between neighbours, packed into as few bits as they
    /// need.
    DeltaBitPacked,
    /// Runs of equal values, each as the value and its length.
    Rle,
}

/// What is known of the content of a column when its encoding is chosen.
#[derive(Clone, Copy, Debug, PartialEq, Eq, Structural)]
pub struct ContentSummary {
    /// Few distinct values occur in the column.
    pub low_cardinality: bool,
    /// The distinct values of the column do not fit a dictionary page.
    pub dictionary_overflow: bool,
}

/// How a column is written: the encoding of its values, and whether the
/// values are replaced by their places in a dictionary.
#[derive(Clone, Copy, Debug, PartialEq, Eq, Structural)]
pub struct ColumnEncoding {
    pub encoding: Encoding,
    pub dictionary: bool,
}

/// The encoding of a column of the given type and content.
///
/// Integers are written as packed differences, with a dictionary where few
/// distinct values occur. Floating-point values are written plainly, with a
/// dictionary where few distinct values occur. Strings are written plainly
/// with a dictionary, and without one where the dictionary would overflow
/// its page. Booleans are written as runs. Every other type is written
/// plainly.
pub open spec fn col_encoding_spec(data_type: DataType, content: ContentSummary) -> ColumnEncoding {
    if data_type.is_integer_spec() {
        ColumnEncoding { encoding: Encoding::DeltaBitPacked, dictionary: content.low_cardinality }
    } else if data_type.is_floating_spec() {
        ColumnEncoding { encoding: Encoding::Plain, dictionary: content.low_cardinality }
    } else if data_type == DataType::String {
        ColumnEncoding { encoding: Encoding::Plain, dictionary: !content.dictionary_overflow }
    } else if data_type == DataType::Boolean {
        ColumnEncoding { encoding: Encoding::Rle, dictionary: false }
    } else {
        ColumnEncoding { encoding: Encoding::Plain, dictionary: false }
    }
}

/// The encoding of a column of the given type and content. The same type
/// and content always give the same encoding.
pub fn col_encoding(data_type: &DataType, content: &ContentSummary) -> (r: ColumnEncoding)
    ensures
        r == col_encoding_spec(*data_type, *content),
{
    if data_type.is_integer() {
        ColumnEncoding { encoding: Encoding::DeltaBitPacked, dictionary: content.low_cardinality }
    } else if data_type.is_floating() {
        ColumnEncoding { encoding: Encoding::Plain, dictionary: content.low_cardinality }
    } else {
        match data_type {
            DataType::String => ColumnEncoding {
                encoding: Encoding::Plain,
                dictionary: !content.dictionary_overflow,
            },
            DataType::Boolean => ColumnEncoding { encoding: Encoding::Rle, dictionary: false },
            _ => ColumnEncoding { encoding: Encoding::Plain, dictionary: false },
        }
    }
}

} // verus!
