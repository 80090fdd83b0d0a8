use fuse_query::datavalues::data_array::DataArray;
use fuse_query::datavalues::data_column::DataColumn;
use fuse_query::datavalues::data_type::DataType;
use fuse_query::datavalues::data_value::DataValue;
use fuse_query::datavalues::decimal::decimal_bytes;
use fuse_query::datavalues::decimal::decimal_string;
use fuse_query::datavalues::parse::parse_integer_bytes;
use fuse_query::datavalues::value_order::bytes_le_exec;
use fuse_query::errors::ErrorKind;

fn all_nulls() -> Vec<DataValue> {
    vec![
        DataValue::Boolean(None),
        DataValue::Int8(None),
        DataValue::Int16(None),
        DataValue::Int32(None),
        DataValue::Int64(None),
        DataValue::UInt8(None),
        DataValue::UInt16(None),
        DataValue::UInt32(None),
        DataValue::UInt64(None),
        DataValue::Float32(None),
        DataValue::Float64(None),
        DataValue::String(None),
    ]
}

fn all_present() -> Vec<DataValue> {
    vec![
        DataValue::Boolean(Some(false)),
        DataValue::Int8(Some(-1)),
        DataValue::Int16(Some(2)),
        DataValue::Int32(Some(-3)),
        DataValue::Int64(Some(4)),
        DataValue::UInt8(Some(5)),
        DataValue::UInt16(Some(6)),
        DataValue::UInt32(Some(7)),
        DataValue::UInt64(Some(8)),
        DataValue::Float32(Some(1.5f32.to_bits())),
        DataValue::Float64(Some((-2.5f64).to_bits())),
        DataValue::String(Some(b"abc".to_vec())),
    ]
}

fn all_types() -> Vec<DataType> {
    vec![
        DataType::Boolean,
        DataType::Int8,
        DataType::Int16,
        DataType::Int32,
        DataType::Int64,
        DataType::UInt8,
        DataType::UInt16,
        DataType::UInt32,
        DataType::UInt64,
        DataType::Float32,
        DataType::Float64,
        DataType::String,
    ]
}

#[test]
fn test_is_null() {
    for v in all_nulls() {
        assert!(v.is_null(), "{:?}", v);
        assert!(v.is_missing());
    }
    for v in all_present() {
        assert!(!v.is_null(), "{:?}", v);
        assert!(!v.is_missing());
    }
    // the untyped null carries no payload either
    assert!(DataValue::Null.is_null());
    assert!(DataValue::Null.is_missing());
}

#[test]
fn test_data_type_is_total() {
    assert_eq!(DataValue::Null.data_type(), DataType::Null);
    let types = all_types();
    for (i, v) in all_nulls().iter().enumerate() {
        assert_eq!(v.data_type(), types[i]);
    }
    for (i, v) in all_present().iter().enumerate() {
        assert_eq!(v.data_type(), types[i]);
    }
}

#[test]
fn test_to_array() {
    let array = DataValue::Int32(Some(7)).to_array(3).unwrap();
    assert_eq!(array.data_type, DataType::Int32);
    assert_eq!(array.values, vec![
        DataValue::Int32(Some(7)),
        DataValue::Int32(Some(7)),
        DataValue::Int32(Some(7))
    ]);
    let array = DataValue::String(None).to_array(2).unwrap();
    assert_eq!(array.values, vec![DataValue::String(None), DataValue::String(None)]);
    let array = DataValue::Null.to_array(1).unwrap();
    assert_eq!(array.data_type, DataType::Null);
    assert_eq!(array.values, vec![DataValue::Null]);
    let array = DataValue::UInt8(Some(1)).to_array(0).unwrap();
    assert_eq!(array.len(), 0);
    assert_eq!(array.data_type(), DataType::UInt8);
}

#[test]
fn test_try_from_array() {
    for v in all_present() {
        let array = DataArray::try_create(v.data_type(), vec![v.clone(), DataValue::try_from(&v.data_type()).unwrap_or(DataValue::String(None))]).unwrap();
        assert_eq!(DataValue::try_from_array(&array, 0).unwrap(), v);
        assert!(DataValue::try_from_array(&array, 1).unwrap().is_null());
    }
    let array = DataArray::try_create(DataType::Int64, vec![
        DataValue::Int64(Some(1)),
        DataValue::Int64(None),
        DataValue::Int64(Some(-9)),
    ])
    .unwrap();
    assert_eq!(DataValue::try_from_array(&array, 2).unwrap(), DataValue::Int64(Some(-9)));
    assert_eq!(DataValue::try_from_array(&array, 1).unwrap(), DataValue::Int64(None));
}

#[test]
fn test_try_from_array_of_nulls_is_refused() {
    let array = DataValue::Null.to_array(2).unwrap();
    let err = DataValue::try_from_array(&array, 0).unwrap_err();
    assert_eq!(err.kind, ErrorKind::Internal);
    assert_eq!(err.message, "Can't create a scalar of array of type \"Null\"");
}

#[test]
fn test_null_of_a_type() {
    let types = all_types();
    let nulls = all_nulls();
    for i in 0..11 {
        assert_eq!(DataValue::try_from(&types[i]).unwrap(), nulls[i]);
    }
    assert_eq!(DataValue::try_from(&DataType::Null).unwrap(), DataValue::Null);
    for t in [DataType::String, DataType::Date, DataType::Timestamp] {
        let err = DataValue::try_from(&t).unwrap_err();
        assert_eq!(err.kind, ErrorKind::Internal);
        assert_eq!(
            err.message,
            format!("Unsupported try_from() for data type: {}", t.name())
        );
    }
}

#[test]
fn test_array_try_create_checks_types() {
    let err = DataArray::try_create(DataType::Int8, vec![DataValue::Int8(Some(1)), DataValue::Int16(Some(1))])
        .unwrap_err();
    assert_eq!(err.kind, ErrorKind::BadArguments);
    assert!(DataArray::try_create(DataType::Date, vec![]).is_ok());
    assert!(DataArray::try_create(DataType::Date, vec![DataValue::Null]).is_err());
}

#[test]
fn test_constant_column_reads_like_array() {
    let constant = DataColumn::Constant(DataValue::UInt16(Some(9)), 4);
    let array = constant.to_array();
    assert_eq!(constant.len(), 4);
    assert_eq!(array.len(), 4);
    assert_eq!(constant.data_type(), DataType::UInt16);
    assert_eq!(array.data_type(), DataType::UInt16);
    for i in 0..4 {
        assert_eq!(constant.get(i), array.get(i));
        assert_eq!(constant.get(i), DataValue::UInt16(Some(9)));
    }
    let materialized = DataColumn::Array(array);
    assert!(constant.is_constant());
    assert!(!materialized.is_constant());
    assert_eq!(constant.slice(1, 2).len(), 2);
    assert_eq!(materialized.slice(1, 2).get(1), DataValue::UInt16(Some(9)));
}

#[test]
fn test_resize_constant() {
    let constant = DataColumn::Constant(DataValue::Int8(Some(1)), 2);
    assert_eq!(constant.resize_constant(5), DataColumn::Constant(DataValue::Int8(Some(1)), 5));
    let one = DataColumn::Array(DataValue::Int8(Some(3)).to_array(1).unwrap());
    assert_eq!(one.resize_constant(4), DataColumn::Constant(DataValue::Int8(Some(3)), 4));
    let two = DataColumn::Array(DataValue::Int8(Some(3)).to_array(2).unwrap());
    assert_eq!(two.resize_constant(4), two);
}

#[test]
fn test_array_slice() {
    let array = DataArray::try_create(DataType::UInt8, vec![
        DataValue::UInt8(Some(0)),
        DataValue::UInt8(Some(1)),
        DataValue::UInt8(Some(2)),
        DataValue::UInt8(Some(3)),
    ])
    .unwrap();
    let slice = array.slice(1, 2);
    assert_eq!(slice.values, vec![DataValue::UInt8(Some(1)), DataValue::UInt8(Some(2))]);
    assert_eq!(array.slice(4, 0).len(), 0);
    assert_eq!(array.slice(0, 4), array);
}

#[test]
fn test_order_of_values() {
    assert!(DataValue::Int32(Some(-5)).le(&DataValue::Int32(Some(3))));
    assert!(!DataValue::Int32(Some(3)).le(&DataValue::Int32(Some(-5))));
    assert!(DataValue::Int32(Some(3)).le(&DataValue::Int32(Some(3))));
    assert!(DataValue::Boolean(Some(false)).le(&DataValue::Boolean(Some(true))));
    assert!(!DataValue::Boolean(Some(true)).le(&DataValue::Boolean(Some(false))));
    assert!(DataValue::UInt64(Some(0)).le(&DataValue::UInt64(Some(u64::MAX))));
    assert!(DataValue::Int64(Some(i64::MIN)).le(&DataValue::Int64(Some(i64::MAX))));
    // values of different types, and missing values, are not ordered
    assert!(!DataValue::Int32(Some(1)).le(&DataValue::Int64(Some(2))));
    assert!(!DataValue::Int32(None).le(&DataValue::Int32(Some(2))));
    assert!(!DataValue::Int32(Some(2)).le(&DataValue::Int32(None)));
    assert!(!DataValue::Null.le(&DataValue::Null));
}

#[test]
fn test_order_of_floats_is_the_total_order() {
    let values = [f64::NEG_INFINITY, -2.5, -0.0, 0.0, 1.0e-300, 1.5, f64::INFINITY];
    for i in 0..values.len() {
        for j in 0..values.len() {
            let a = DataValue::Float64(Some(values[i].to_bits()));
            let b = DataValue::Float64(Some(values[j].to_bits()));
            assert_eq!(a.le(&b), i <= j, "{} <= {}", values[i], values[j]);
            assert_eq!(
                a.le(&b),
                values[i].total_cmp(&values[j]) != std::cmp::Ordering::Greater
            );
        }
    }
    let values = [f32::MIN, -1.0f32, -0.0, 0.0, 3.25, f32::MAX, f32::NAN];
    for i in 0..values.len() {
        for j in 0..values.len() {
            let a = DataValue::Float32(Some(values[i].to_bits()));
            let b = DataValue::Float32(Some(values[j].to_bits()));
            assert_eq!(
                a.le(&b),
                values[i].total_cmp(&values[j]) != std::cmp::Ordering::Greater
            );
        }
    }
    assert_eq!(DataValue::Float64(Some(1.5f64.to_bits())).order_key(), Some(1.5f64.to_bits() as i128));
    assert_eq!(DataValue::Float32(Some((-0.0f32).to_bits())).order_key(), Some(-1));
}

#[test]
fn test_order_of_strings() {
    let le = |a: &str, b: &str| bytes_le_exec(&a.as_bytes().to_vec(), &b.as_bytes().to_vec());
    assert!(le("", ""));
    assert!(le("", "a"));
    assert!(!le("a", ""));
    assert!(le("a", "ab"));
    assert!(!le("ab", "a"));
    assert!(le("ab", "b"));
    assert!(!le("b", "ab"));
    assert!(le("apple", "apple"));
    assert!(le("apple", "apples"));
    assert!(le("apples", "avocado"));
    let words = ["kiwi", "", "fig", "figs", "apple", "zebra", "Zebra"];
    for a in words {
        for b in words {
            assert_eq!(le(a, b), a.as_bytes() <= b.as_bytes());
        }
    }
    assert!(DataValue::String(Some(b"a".to_vec())).le(&DataValue::String(Some(b"b".to_vec()))));
    assert!(!DataValue::String(Some(vec![0xff])).le(&DataValue::String(Some(vec![0x00, 0xff]))));
}

#[test]
fn test_decimal() {
    assert_eq!(decimal_bytes(false, 0), b"0".to_vec());
    assert_eq!(decimal_bytes(false, 7), b"7".to_vec());
    assert_eq!(decimal_bytes(false, 10), b"10".to_vec());
    assert_eq!(decimal_bytes(false, 255), b"255".to_vec());
    assert_eq!(decimal_bytes(true, 128), b"-128".to_vec());
    assert_eq!(decimal_bytes(false, u64::MAX), b"18446744073709551615".to_vec());
    assert_eq!(decimal_bytes(true, 9223372036854775808), b"-9223372036854775808".to_vec());
    assert_eq!(decimal_string(false, 0), "0");
    assert_eq!(decimal_string(false, 1002), "1002");
    assert_eq!(decimal_string(true, 1), "-1");
    assert_eq!(decimal_string(false, u64::MAX), u64::MAX.to_string());
    for n in [9u64, 99, 100, 101, 12345678901234567] {
        assert_eq!(decimal_string(false, n), n.to_string());
        assert_eq!(decimal_bytes(false, n), n.to_string().into_bytes());
    }
}

#[test]
fn test_data_type_names_and_classes() {
    assert_eq!(DataType::UInt16.name(), "UInt16");
    assert_eq!(DataType::Timestamp.name(), "Timestamp");
    let integers = [
        DataType::Int8,
        DataType::Int16,
        DataType::Int32,
        DataType::Int64,
        DataType::UInt8,
        DataType::UInt16,
        DataType::UInt32,
        DataType::UInt64,
    ];
    for t in integers {
        assert!(t.is_integer());
        assert!(!t.is_floating());
        assert_eq!(t.is_signed(), !t.is_unsigned());
    }
    for t in [DataType::Null, DataType::Boolean, DataType::String, DataType::Date, DataType::Timestamp] {
        assert!(!t.is_integer());
        assert!(!t.is_floating());
    }
    assert!(DataType::Float32.is_floating() && DataType::Float64.is_floating());
    assert!(!DataType::Float64.is_integer());
    assert!(DataType::String.has_scalars());
    assert!(!DataType::Null.has_scalars());
    assert!(!DataType::Date.has_scalars());
}

#[test]
fn test_display() {
    let shown = |v: DataValue| v.display();
    assert_eq!(shown(DataValue::Null), Some("Null".to_string()));
    for v in all_nulls() {
        assert_eq!(v.display(), Some("NULL".to_string()));
    }
    assert_eq!(shown(DataValue::Boolean(Some(true))), Some("true".to_string()));
    assert_eq!(shown(DataValue::Boolean(Some(false))), Some("false".to_string()));
    assert_eq!(shown(DataValue::Int8(Some(-128))), Some("-128".to_string()));
    assert_eq!(shown(DataValue::Int16(Some(0))), Some("0".to_string()));
    assert_eq!(shown(DataValue::Int32(Some(1002))), Some("1002".to_string()));
    assert_eq!(shown(DataValue::Int64(Some(i64::MIN))), Some(i64::MIN.to_string()));
    assert_eq!(shown(DataValue::UInt8(Some(255))), Some("255".to_string()));
    assert_eq!(shown(DataValue::UInt16(Some(22))), Some("22".to_string()));
    assert_eq!(shown(DataValue::UInt32(Some(u32::MAX))), Some(u32::MAX.to_string()));
    assert_eq!(shown(DataValue::UInt64(Some(u64::MAX))), Some(u64::MAX.to_string()));
    assert_eq!(shown(DataValue::String(Some(b"default".to_vec()))), Some("default".to_string()));
    assert_eq!(shown(DataValue::String(Some(vec![]))), Some(String::new()));
    assert_eq!(shown(DataValue::String(Some("grüße".as_bytes().to_vec()))), Some("grüße".to_string()));
    // bytes that are no UTF-8, and floating-point values, have no text here
    assert_eq!(shown(DataValue::String(Some(vec![0xff, 0xfe]))), None);
    assert_eq!(shown(DataValue::String(Some(vec![0xc3]))), None);
    assert_eq!(shown(DataValue::Float32(Some(1.5f32.to_bits()))), None);
    assert_eq!(shown(DataValue::Float64(Some(0f64.to_bits()))), None);
}

#[test]
fn test_parse_integer() {
    let parse = |s: &str| parse_integer_bytes(&s.as_bytes().to_vec());
    assert_eq!(parse("0"), Some(0));
    assert_eq!(parse("42"), Some(42));
    assert_eq!(parse("-42"), Some(-42));
    assert_eq!(parse("+42"), Some(42));
    assert_eq!(parse("0042"), Some(42));
    assert_eq!(parse("18446744073709551616"), Some(1i128 << 64));
    assert_eq!(parse("-18446744073709551616"), Some(-(1i128 << 64)));
    assert_eq!(parse("18446744073709551617"), None);
    for s in ["", "-", "+", "--1", "+-1", "1-", "1 ", " 1", "1_000", "0x10", "1e3", "٣"] {
        assert_eq!(parse(s), None, "{:?}", s);
    }
    for n in [0i128, 9, 10, -10, 12345, -99999, u64::MAX as i128, i64::MIN as i128] {
        assert_eq!(parse(&n.to_string()), Some(n));
    }
}
