use fuse_query::datablocks::data_block::DataBlock;
use fuse_query::datavalues::data_array::DataArray;
use fuse_query::datavalues::data_column::DataColumn;
use fuse_query::datavalues::data_schema::DataField;
use fuse_query::datavalues::data_schema::DataSchema;
use fuse_query::datavalues::data_type::DataType;
use fuse_query::datavalues::data_value::DataValue;
use fuse_query::errors::ErrorKind;
use fuse_query::functions::cast::cast_column;
use fuse_query::functions::cast::CastFunction;
use fuse_query::pipelines::transform_sink::cast_functions;
use fuse_query::pipelines::transform_sink::SinkTransform;
use fuse_query::streams::cast_stream::CastStream;
use fuse_query::streams::data_block_stream::DataBlockStream;
use fuse_query::catalogs::table_info::TableIdent;
use fuse_query::catalogs::table_info::TableInfo;

fn ints(values: &[Option<i32>]) -> DataColumn {
    DataColumn::Array(
        DataArray::try_create(
            DataType::Int32,
            values.iter().map(|v| DataValue::Int32(*v)).collect(),
        )
        .unwrap(),
    )
}

fn strings(values: &[Option<&str>]) -> DataColumn {
    DataColumn::Array(
        DataArray::try_create(
            DataType::String,
            values
                .iter()
                .map(|v| DataValue::String(v.map(|s| s.as_bytes().to_vec())))
                .collect(),
        )
        .unwrap(),
    )
}

fn schema(fields: &[(&str, DataType, bool)]) -> DataSchema {
    DataSchema::new(
        fields
            .iter()
            .map(|(n, t, nullable)| DataField::new(n, *t, *nullable))
            .collect(),
    )
}

fn sample_block() -> DataBlock {
    DataBlock::create(
        schema(&[("a", DataType::Int32, true), ("b", DataType::String, false)]),
        vec![
            ints(&[Some(1), None, Some(3)]),
            strings(&[Some("x"), Some("yy"), Some("")]),
        ],
    )
    .unwrap()
}

#[test]
fn test_block_create() {
    let block = sample_block();
    assert_eq!(block.num_rows(), 3);
    assert_eq!(block.num_columns(), 2);
    assert!(!block.is_empty());
    assert_eq!(block.column(0).get(2), DataValue::Int32(Some(3)));
    assert_eq!(block.schema().field(1).name(), "b");
    assert_eq!(block.schema().field(1).data_type(), DataType::String);
    assert!(block.schema().field(0).is_nullable());
}

#[test]
fn test_block_create_refuses_misfits() {
    // one column short
    let err = DataBlock::create(
        schema(&[("a", DataType::Int32, true), ("b", DataType::String, false)]),
        vec![ints(&[Some(1)])],
    )
    .unwrap_err();
    assert_eq!(err.kind, ErrorKind::BadArguments);
    // a column of another type than its field
    let err = DataBlock::create(schema(&[("a", DataType::Int64, true)]), vec![ints(&[Some(1)])])
        .unwrap_err();
    assert_eq!(err.kind, ErrorKind::BadArguments);
    // columns of different lengths
    let err = DataBlock::create(
        schema(&[("a", DataType::Int32, true), ("b", DataType::Int32, false)]),
        vec![ints(&[Some(1)]), ints(&[Some(1), Some(2)])],
    )
    .unwrap_err();
    assert_eq!(err.kind, ErrorKind::BadArguments);
    // a column that holds a value of another type than its own
    let mixed = DataColumn::Array(DataArray {
        data_type: DataType::Int32,
        values: vec![DataValue::Int32(Some(1)), DataValue::Int64(Some(2))],
    });
    assert!(!mixed.is_well_formed());
    let err = DataBlock::create(schema(&[("a", DataType::Int32, true)]), vec![mixed]).unwrap_err();
    assert_eq!(err.kind, ErrorKind::BadArguments);
    // a constant column counts by its rows
    let block = DataBlock::create(
        schema(&[("a", DataType::Int32, true), ("b", DataType::Int32, false)]),
        vec![ints(&[Some(1), Some(2)]), DataColumn::Constant(DataValue::Int32(Some(7)), 2)],
    )
    .unwrap();
    assert_eq!(block.num_rows(), 2);
}

#[test]
fn test_block_create_by_array() {
    let a = DataArray::try_create(DataType::UInt8, vec![DataValue::UInt8(Some(1)), DataValue::UInt8(Some(2))]).unwrap();
    let b = DataArray::try_create(DataType::Boolean, vec![DataValue::Boolean(Some(true)), DataValue::Boolean(None)]).unwrap();
    let block = DataBlock::create_by_array(
        schema(&[("a", DataType::UInt8, false), ("b", DataType::Boolean, true)]),
        vec![a.clone(), b.clone()],
    )
    .unwrap();
    assert_eq!(block.columns, vec![DataColumn::Array(a.clone()), DataColumn::Array(b)]);
    let err = DataBlock::create_by_array(schema(&[("a", DataType::Boolean, false)]), vec![a]).unwrap_err();
    assert_eq!(err.kind, ErrorKind::BadArguments);
}

#[test]
fn test_block_is_well_formed() {
    let mut block = sample_block();
    assert!(block.is_well_formed());
    block.columns.pop();
    assert!(!block.is_well_formed());
    let mut block = sample_block();
    block.columns[1] = ints(&[Some(1), Some(2), Some(3)]);
    assert!(!block.is_well_formed());
    let mut block = sample_block();
    block.columns[1] = strings(&[Some("x")]);
    assert!(!block.is_well_formed());
    assert!(DataBlock::empty_with_schema(DataSchema::empty()).is_well_formed());
}

#[test]
fn test_block_empty_and_slice() {
    let empty = DataBlock::empty_with_schema(schema(&[("a", DataType::Int32, true)]));
    assert_eq!(empty.num_rows(), 0);
    assert_eq!(empty.num_columns(), 1);
    assert!(empty.is_empty());
    let none = DataBlock::empty_with_schema(DataSchema::empty());
    assert_eq!(none.num_rows(), 0);
    assert_eq!(none.num_columns(), 0);

    let block = sample_block();
    let slice = block.slice(1, 2);
    assert_eq!(slice.num_rows(), 2);
    assert_eq!(slice.column(0), &ints(&[None, Some(3)]));
    assert_eq!(slice.column(1), &strings(&[Some("yy"), Some("")]));
    assert!(slice.schema().same_as(block.schema()));
    assert_eq!(block.slice(3, 0).num_rows(), 0);
    assert_eq!(block.slice(0, 3), block);
}

#[test]
fn test_schema_equality() {
    let a = schema(&[("a", DataType::Int32, true), ("b", DataType::String, false)]);
    assert!(a.same_as(&a.clone()));
    assert!(!a.same_as(&schema(&[("a", DataType::Int32, true)])));
    assert!(!a.same_as(&schema(&[("a", DataType::Int32, false), ("b", DataType::String, false)])));
    assert!(!a.same_as(&schema(&[("a", DataType::Int64, true), ("b", DataType::String, false)])));
    assert!(!a.same_as(&schema(&[("b", DataType::String, false), ("a", DataType::Int32, true)])));
    assert!(!a.same_as(&schema(&[("A", DataType::Int32, true), ("b", DataType::String, false)])));
    assert!(DataSchema::empty().same_as(&schema(&[])));
    assert_eq!(a.num_fields(), 2);
}

#[test]
fn test_cast_block_to_own_schema_is_identity() {
    let block = sample_block();
    let stream = CastStream::try_create(block.schema().clone(), cast_functions(block.schema()).unwrap()).unwrap();
    let cast = stream.cast(&block).unwrap();
    assert_eq!(cast, block);

    // also with nulls in a column that is declared without nulls, and with a constant column
    let odd = DataBlock::create(
        schema(&[("a", DataType::Int32, false), ("f", DataType::Float64, false), ("d", DataType::Null, false)]),
        vec![
            ints(&[None, Some(2)]),
            DataColumn::Constant(DataValue::Float64(Some(2.5f64.to_bits())), 2),
            DataColumn::Constant(DataValue::Null, 2),
        ],
    )
    .unwrap();
    let stream = CastStream::try_create(odd.schema().clone(), cast_functions(odd.schema()).unwrap()).unwrap();
    assert_eq!(stream.cast(&odd).unwrap(), odd);
}

#[test]
fn test_cast_integers() {
    let column = ints(&[Some(1), None, Some(300), Some(-1)]);
    // to a wider type every value has a counterpart
    let wide = cast_column(&column, DataType::Int64, false).unwrap();
    assert_eq!(wide.data_type(), DataType::Int64);
    assert_eq!(wide.to_array().values, vec![
        DataValue::Int64(Some(1)),
        DataValue::Int64(None),
        DataValue::Int64(Some(300)),
        DataValue::Int64(Some(-1)),
    ]);
    // to a narrower type some rows fail: nulls where the target allows them
    let narrow = cast_column(&column, DataType::UInt8, true).unwrap();
    assert_eq!(narrow.to_array().values, vec![
        DataValue::UInt8(Some(1)),
        DataValue::UInt8(None),
        DataValue::UInt8(None),
        DataValue::UInt8(None),
    ]);
    // and a failure of the cast where it does not
    let err = cast_column(&column, DataType::UInt8, false).unwrap_err();
    assert_eq!(err.kind, ErrorKind::BadArguments);
    // without failing rows the target need not allow nulls
    let ok = cast_column(&ints(&[Some(0), Some(255), None]), DataType::UInt8, false).unwrap();
    assert_eq!(ok.to_array().values, vec![
        DataValue::UInt8(Some(0)),
        DataValue::UInt8(Some(255)),
        DataValue::UInt8(None),
    ]);
}

#[test]
fn test_cast_bounds() {
    let cases: Vec<(DataValue, DataType, Option<DataValue>)> = vec![
        (DataValue::Int64(Some(127)), DataType::Int8, Some(DataValue::Int8(Some(127)))),
        (DataValue::Int64(Some(128)), DataType::Int8, None),
        (DataValue::Int64(Some(-128)), DataType::Int8, Some(DataValue::Int8(Some(-128)))),
        (DataValue::Int64(Some(-129)), DataType::Int8, None),
        (DataValue::Int64(Some(-1)), DataType::UInt64, None),
        (DataValue::UInt64(Some(u64::MAX)), DataType::Int64, None),
        (DataValue::UInt64(Some(i64::MAX as u64)), DataType::Int64, Some(DataValue::Int64(Some(i64::MAX)))),
        (DataValue::UInt16(Some(65535)), DataType::Int16, None),
        (DataValue::UInt16(Some(65535)), DataType::UInt32, Some(DataValue::UInt32(Some(65535)))),
        (DataValue::Int32(Some(i32::MIN)), DataType::Int16, None),
        (DataValue::Int32(Some(-32768)), DataType::Int16, Some(DataValue::Int16(Some(-32768)))),
        (DataValue::Boolean(Some(true)), DataType::UInt8, Some(DataValue::UInt8(Some(1)))),
        (DataValue::Boolean(Some(false)), DataType::Int64, Some(DataValue::Int64(Some(0)))),
        (DataValue::Int16(Some(-42)), DataType::String, Some(DataValue::String(Some(b"-42".to_vec())))),
        (DataValue::UInt64(Some(u64::MAX)), DataType::String, Some(DataValue::String(Some(b"18446744073709551615".to_vec())))),
        (DataValue::Int64(Some(i64::MIN)), DataType::String, Some(DataValue::String(Some(b"-9223372036854775808".to_vec())))),
    ];
    for (value, to, expected) in cases {
        assert_eq!(value.convert_to(to), expected, "{:?} to {:?}", value, to);
    }
}

#[test]
fn test_cast_unsupported_pairs() {
    let column = strings(&[Some("1")]);
    for to in [DataType::Boolean, DataType::Float64, DataType::Date, DataType::Null] {
        let err = cast_column(&column, to, true).unwrap_err();
        assert_eq!(err.kind, ErrorKind::IllegalDataType, "{:?}", to);
    }
    let err = cast_column(&ints(&[Some(1)]), DataType::Float32, true).unwrap_err();
    assert_eq!(err.kind, ErrorKind::IllegalDataType);
    assert_eq!(err.message, "Unsupported cast from Int32 to Float32");
    let err = cast_column(&column, DataType::Boolean, false).unwrap_err();
    assert_eq!(err.message, "Unsupported cast from String to Boolean");
    let err = cast_column(&ints(&[]), DataType::Timestamp, true).unwrap_err();
    assert_eq!(err.kind, ErrorKind::IllegalDataType);
    assert!(DataType::Int8.can_cast_to(DataType::String));
    assert!(DataType::Null.can_cast_to(DataType::Float64));
    assert!(!DataType::Boolean.can_cast_to(DataType::String));
    assert!(DataType::String.can_cast_to(DataType::UInt8));
    assert!(!DataType::String.can_cast_to(DataType::Boolean));
    assert!(DataType::Date.can_cast_to(DataType::Date));
}

#[test]
fn test_cast_nulls_and_constants() {
    let nulls = DataColumn::Constant(DataValue::Null, 3);
    let cast = cast_column(&nulls, DataType::String, false).unwrap();
    assert_eq!(cast, DataColumn::Constant(DataValue::String(None), 3));
    let constant = DataColumn::Constant(DataValue::Int32(Some(1000)), 2);
    assert_eq!(
        cast_column(&constant, DataType::Int16, false).unwrap(),
        DataColumn::Constant(DataValue::Int16(Some(1000)), 2)
    );
    assert_eq!(
        cast_column(&constant, DataType::Int8, true).unwrap(),
        DataColumn::Constant(DataValue::Int8(None), 2)
    );
    assert_eq!(cast_column(&constant, DataType::Int8, false).unwrap_err().kind, ErrorKind::BadArguments);
    // a constant without rows has no row that could fail
    let empty = DataColumn::Constant(DataValue::Int32(Some(1000)), 0);
    assert_eq!(cast_column(&empty, DataType::Int8, false).unwrap().len(), 0);
}

#[test]
fn test_cast_function() {
    let f = CastFunction::create("cast".to_string(), DataType::Int64).unwrap();
    assert_eq!(f.return_type(), DataType::Int64);
    assert_eq!(f.name(), "CastFunction");
    let cast = f.eval(&ints(&[Some(5)]), false).unwrap();
    assert_eq!(cast.get(0), DataValue::Int64(Some(5)));
}

#[test]
fn test_cast_stream() {
    let target = schema(&[("a", DataType::Int64, false), ("b", DataType::String, true)]);
    let stream = CastStream::try_create(target.clone(), cast_functions(&target).unwrap()).unwrap();
    let block = DataBlock::create(
        schema(&[("x", DataType::Int32, false), ("y", DataType::UInt8, false)]),
        vec![
            ints(&[Some(1), Some(2)]),
            DataColumn::Array(DataArray::try_create(DataType::UInt8, vec![DataValue::UInt8(Some(7)), DataValue::UInt8(Some(80))]).unwrap()),
        ],
    )
    .unwrap();
    let cast = stream.cast(&block).unwrap();
    assert!(cast.schema().same_as(&target));
    assert_eq!(cast.num_rows(), 2);
    assert_eq!(cast.column(0).to_array().values, vec![DataValue::Int64(Some(1)), DataValue::Int64(Some(2))]);
    assert_eq!(cast.column(1), &strings(&[Some("7"), Some("80")]));
    // a block whose columns are of the target's types already passes
    assert!(stream.cast(&cast).is_ok());
    // a block with another number of columns is refused
    let one = DataBlock::create(schema(&[("x", DataType::Int32, false)]), vec![ints(&[Some(1)])]).unwrap();
    assert_eq!(stream.cast(&one).unwrap_err().kind, ErrorKind::BadArguments);
    // functions that do not fit the schema are refused
    let wrong = vec![CastFunction::create("cast".to_string(), DataType::Int64).unwrap()];
    assert_eq!(CastStream::try_create(target.clone(), wrong).unwrap_err().kind, ErrorKind::BadArguments);
    let wrong = vec![
        CastFunction::create("cast".to_string(), DataType::Int64).unwrap(),
        CastFunction::create("cast".to_string(), DataType::Int64).unwrap(),
    ];
    assert_eq!(CastStream::try_create(target, wrong).unwrap_err().kind, ErrorKind::BadArguments);
}

#[test]
fn test_sink_transform() {
    let table_schema = schema(&[("c1", DataType::Int64, false)]);
    let info = TableInfo::simple("db1", "t", TableIdent::new(1, 0), table_schema.clone(), "Fuse");
    let mut sink: SinkTransform<u32> = SinkTransform::create(info.clone(), true);
    assert_eq!(sink.name(), "SinkTransform");
    assert_eq!(sink.inputs(), None);
    sink.connect_to(5).unwrap();
    assert_eq!(sink.inputs(), Some(&5));
    sink.connect_to(6).unwrap();
    assert_eq!(sink.inputs(), Some(&6));

    let functions = cast_functions(&table_schema).unwrap();
    assert_eq!(functions.len(), 1);
    assert_eq!(functions[0].cast_type, DataType::Int64);
    assert_eq!(functions[0].display_name, "cast");

    let block = DataBlock::create(schema(&[("x", DataType::Int32, false)]), vec![ints(&[Some(1), Some(2), Some(3)])]).unwrap();
    let out = sink.transform(&block).unwrap();
    assert!(out.schema().same_as(&table_schema));
    assert_eq!(out.column(0).to_array().values, vec![
        DataValue::Int64(Some(1)),
        DataValue::Int64(Some(2)),
        DataValue::Int64(Some(3))
    ]);
    assert!(sink.cast_stream().unwrap().is_some());

    let plain: SinkTransform<u32> = SinkTransform::create(info, false);
    assert!(plain.cast_stream().unwrap().is_none());
    assert_eq!(plain.transform(&block).unwrap(), block);
}

#[test]
fn test_data_block_stream() {
    let block = sample_block();
    let mut stream = DataBlockStream::single(block.clone());
    assert!(stream.schema.same_as(block.schema()));
    assert_eq!(stream.poll_next(), Some(block.clone()));
    assert_eq!(stream.poll_next(), None);
    assert_eq!(stream.poll_next(), None);

    let second = block.slice(0, 1);
    let mut stream = DataBlockStream::create(block.schema().clone(), vec![block.clone(), second.clone()]);
    assert_eq!(stream.poll_next(), Some(block));
    assert_eq!(stream.poll_next(), Some(second));
    assert_eq!(stream.poll_next(), None);

    let mut none = DataBlockStream::create(DataSchema::empty(), vec![]);
    assert_eq!(none.poll_next(), None);
}

#[test]
fn test_cast_strings_to_integers() {
    let column = strings(&[Some("12"), Some("-7"), Some("+3"), Some("007"), None, Some(""), Some("1x"), Some(" 1"), Some("-"), Some("300")]);
    let cast = cast_column(&column, DataType::Int16, true).unwrap();
    assert_eq!(cast.to_array().values, vec![
        DataValue::Int16(Some(12)),
        DataValue::Int16(Some(-7)),
        DataValue::Int16(Some(3)),
        DataValue::Int16(Some(7)),
        DataValue::Int16(None),
        DataValue::Int16(None),
        DataValue::Int16(None),
        DataValue::Int16(None),
        DataValue::Int16(None),
        DataValue::Int16(Some(300)),
    ]);
    // where the target allows no nulls, a text that holds no integer fails the cast
    assert_eq!(cast_column(&column, DataType::Int16, false).unwrap_err().kind, ErrorKind::BadArguments);
    assert!(cast_column(&strings(&[Some("1"), None]), DataType::Int16, false).is_ok());
    let text = |s: &str| DataValue::String(Some(s.as_bytes().to_vec()));
    assert_eq!(text("255").convert_to(DataType::UInt8), Some(DataValue::UInt8(Some(255))));
    assert_eq!(text("256").convert_to(DataType::UInt8), None);
    assert_eq!(text("-1").convert_to(DataType::UInt8), None);
    assert_eq!(text("-0").convert_to(DataType::UInt8), Some(DataValue::UInt8(Some(0))));
    assert_eq!(text("18446744073709551615").convert_to(DataType::UInt64), Some(DataValue::UInt64(Some(u64::MAX))));
    assert_eq!(text("18446744073709551616").convert_to(DataType::UInt64), None);
    assert_eq!(text("-9223372036854775808").convert_to(DataType::Int64), Some(DataValue::Int64(Some(i64::MIN))));
    assert_eq!(text("-9223372036854775809").convert_to(DataType::Int64), None);
    assert_eq!(text("99999999999999999999999999999999999999999999").convert_to(DataType::Int64), None);
    assert_eq!(text("00000000000000000000000000000000000000000001").convert_to(DataType::Int8), Some(DataValue::Int8(Some(1))));
    assert_eq!(text("1.0").convert_to(DataType::Int64), None);
    assert_eq!(text("true").convert_to(DataType::Int64), None);
}

#[test]
fn test_cast_integer_to_string_and_back() {
    let values = vec![
        DataValue::Int8(Some(-128)),
        DataValue::Int16(Some(0)),
        DataValue::Int32(Some(i32::MAX)),
        DataValue::Int64(Some(i64::MIN)),
        DataValue::UInt8(Some(7)),
        DataValue::UInt16(Some(65535)),
        DataValue::UInt32(Some(10)),
        DataValue::UInt64(Some(u64::MAX)),
    ];
    for v in values {
        let text = v.convert_to(DataType::String).unwrap();
        assert_eq!(text.convert_to(v.data_type()), Some(v));
    }
}
