use fuse_query::datavalues::data_array::DataArray;
use fuse_query::datavalues::data_column::DataColumn;
use fuse_query::datavalues::data_schema::DataSchema;
use fuse_query::datavalues::data_type::DataType;
use fuse_query::datavalues::data_value::DataValue;
use fuse_query::errors::ErrorKind;
use fuse_query::functions::ascii::AsciiFunction;
use fuse_query::functions::ascii::FunctionCreator;
use fuse_query::functions::ascii::FunctionDescription;
use fuse_query::functions::ascii::FunctionFeatures;

fn strings(values: &[Option<&[u8]>]) -> DataColumn {
    DataColumn::Array(
        DataArray::try_create(
            DataType::String,
            values.iter().map(|v| DataValue::String(v.map(|s| s.to_vec()))).collect(),
        )
        .unwrap(),
    )
}

fn text(s: &str) -> DataValue {
    DataValue::String(Some(s.as_bytes().to_vec()))
}

#[test]
fn test_ascii_desc() {
    let desc = AsciiFunction::desc();
    assert!(desc.features.is_deterministic);
    assert_eq!(desc.function_creator, FunctionCreator::Ascii);
    let f = desc.create("ascii").unwrap();
    assert_eq!(f.display_name, "ascii");
    assert_eq!(f.name(), "ascii");
    assert_eq!(f.to_string(), "ASCII");
    assert_eq!(f.num_arguments(), 1);
    assert_eq!(f.nullable(&DataSchema::empty()), Ok(true));
    assert!(!FunctionFeatures::default().is_deterministic);
    assert!(!FunctionDescription::creator(FunctionCreator::Ascii).features.is_deterministic);
}

#[test]
fn test_ascii_return_type() {
    let f = AsciiFunction::try_create("ASCII").unwrap();
    for t in [DataType::String, DataType::Null, DataType::Int8, DataType::UInt64, DataType::Int32] {
        assert_eq!(f.return_type(&[t]), Ok(DataType::String));
    }
    for t in [DataType::Boolean, DataType::Float32, DataType::Float64, DataType::Date, DataType::Timestamp] {
        let err = f.return_type(&[t]).unwrap_err();
        assert_eq!(err.kind, ErrorKind::IllegalDataType);
        assert_eq!(
            err.message,
            format!("Expected integer or string or null, but got {}", t.name())
        );
    }
    assert_eq!(
        f.return_type(&[DataType::Float64]).unwrap_err().message,
        "Expected integer or string or null, but got Float64"
    );
}

#[test]
fn test_ascii_eval_strings() {
    let f = AsciiFunction::try_create("ascii").unwrap();
    let column = strings(&[Some(b"abc"), Some(b""), None, Some(b"0"), Some(&[0xe4, 0xbd]), Some(b" x")]);
    let result = f.eval(&column).unwrap();
    assert_eq!(result.data_type(), DataType::String);
    assert_eq!(result.to_array().values, vec![
        text("97"),
        DataValue::String(None),
        DataValue::String(None),
        text("48"),
        text("228"),
        text("32"),
    ]);
}

#[test]
fn test_ascii_eval_empty_string_is_null() {
    let f = AsciiFunction::try_create("ascii").unwrap();
    let result = f.eval(&strings(&[Some(b""), Some(b"")])).unwrap();
    assert_eq!(result.to_array().values, vec![DataValue::String(None), DataValue::String(None)]);
    assert_eq!(DataValue::String(Some(vec![])).ascii(), DataValue::String(None));
    assert_eq!(DataValue::String(Some(vec![0])).ascii(), text("0"));
    assert_eq!(DataValue::String(Some(vec![255, 1])).ascii(), text("255"));
}

#[test]
fn test_ascii_eval_integers_and_nulls() {
    let f = AsciiFunction::try_create("ascii").unwrap();
    let ints = DataColumn::Array(
        DataArray::try_create(DataType::Int32, vec![
            DataValue::Int32(Some(7)),
            DataValue::Int32(Some(-12)),
            DataValue::Int32(None),
            DataValue::Int32(Some(100)),
        ])
        .unwrap(),
    );
    // the integer is written in decimal first: '7' is 55, '-' is 45, '1' is 49
    assert_eq!(f.eval(&ints).unwrap().to_array().values, vec![
        text("55"),
        text("45"),
        DataValue::String(None),
        text("49"),
    ]);
    let nulls = DataColumn::Constant(DataValue::Null, 2);
    let result = f.eval(&nulls).unwrap();
    assert_eq!(result, DataColumn::Constant(DataValue::String(None), 2));
}

#[test]
fn test_ascii_eval_constant_and_single_row() {
    let f = AsciiFunction::try_create("ascii").unwrap();
    let constant = DataColumn::Constant(text("Zz"), 5);
    assert_eq!(f.eval(&constant).unwrap(), DataColumn::Constant(text("90"), 5));
    let single = strings(&[Some(b"A")]);
    let result = f.eval(&single).unwrap();
    assert_eq!(result.len(), 1);
    assert_eq!(result.get(0), text("65"));
    assert!(result.is_constant());
    let empty = strings(&[]);
    assert_eq!(f.eval(&empty).unwrap().len(), 0);
}

#[test]
fn test_ascii_eval_refuses_other_types() {
    let f = AsciiFunction::try_create("ascii").unwrap();
    let bools = DataColumn::Constant(DataValue::Boolean(Some(true)), 1);
    assert_eq!(f.eval(&bools).unwrap_err().kind, ErrorKind::IllegalDataType);
    let floats = DataColumn::Constant(DataValue::Float64(Some(1.0f64.to_bits())), 1);
    assert_eq!(f.eval(&floats).unwrap_err().kind, ErrorKind::IllegalDataType);
}
