use datame::data_gen::create_data_from_schema;
use datame::data_repr::{ColumnData, Tuple};
use datame::gen::{FloatGenerator, IntegerGenerator, StringGenerator};
use datame::parser::parse;
use datame::schema::{FieldSchema, FieldType, RecordSchema};
use datame::writer::{
    check_capabilities, csv_cells, csv_join, i64_to_decimal, run_pipeline, CapabilityError,
    CsvCell, PipelineErrorKind, TupleToCSVSerializer, TupleToJsonSerializer, TupleWriter,
    WriteError,
};

fn data_matches(data: &ColumnData, ty: &FieldType) -> bool {
    match (data, ty) {
        (ColumnData::Integer(_), FieldType::Integer(_)) => true,
        (ColumnData::Float(_), FieldType::Float(_)) => true,
        (ColumnData::String(_), FieldType::String(_)) => true,
        (ColumnData::List(items), FieldType::List(inner)) => {
            items.len() == 4 && items.iter().all(|d| data_matches(d, inner))
        }
        (ColumnData::Record(t), FieldType::Record(s)) => tuple_matches(t, s),
        _ => false,
    }
}

fn tuple_matches(tuple: &Tuple, schema: &RecordSchema) -> bool {
    if tuple.num_fields() != schema.num_fields() {
        return false;
    }
    let mut i = 0;
    while i < tuple.num_fields() {
        let fs = schema.field_at(i);
        if tuple.name_at(i) != fs.get_name() || !data_matches(tuple.data_at(i), fs.get_type()) {
            return false;
        }
        i += 1;
    }
    true
}

#[test]
fn synthesized_tuple_mirrors_schema_shape() {
    let schema = parse(
        "table sales(total float, id integer, items list(record(name string, qty integer,)), \
         team record(manager string, sizes list(float),),);",
    )
    .unwrap();
    let tuple = create_data_from_schema(&schema);
    assert!(tuple_matches(&tuple, &schema));
}

#[test]
fn synthesized_list_field_has_exactly_four_integers() {
    let schema = parse("table t(items list(integer),);").unwrap();
    let tuple = create_data_from_schema(&schema);
    assert_eq!(tuple.num_fields(), 1);
    assert_eq!(tuple.name_at(0), "items");
    match tuple.data_at(0) {
        ColumnData::List(items) => {
            assert_eq!(items.len(), 4);
            for item in items {
                match item {
                    ColumnData::Integer(v) => assert!((0..100).contains(v)),
                    other => panic!("expected integers in list, got {:?}", other),
                }
            }
        }
        other => panic!("expected a list, got {:?}", other),
    }
}

#[test]
fn fixed_generators_flow_into_synthesized_values() {
    let schema = RecordSchema::new()
        .with_field(FieldSchema::new("n", FieldType::Integer(IntegerGenerator::Fixed(7))))
        .with_field(FieldSchema::new(
            "x",
            FieldType::Float(FloatGenerator::FixedBits((2.25f64).to_bits())),
        ))
        .with_field(FieldSchema::new(
            "s",
            FieldType::String(StringGenerator::Fixed("abc".to_string())),
        ));
    let tuple = create_data_from_schema(&schema);
    assert!(matches!(tuple.data_at(0), ColumnData::Integer(7)));
    match tuple.data_at(1) {
        ColumnData::Float(bits) => assert_eq!(f64::from_bits(*bits), 2.25),
        other => panic!("expected a float, got {:?}", other),
    }
    match tuple.data_at(2) {
        ColumnData::String(s) => assert_eq!(s, "abc"),
        other => panic!("expected a string, got {:?}", other),
    }
}

#[test]
fn default_string_fields_hold_the_placeholder() {
    let schema = parse("table t(name string,);").unwrap();
    let tuple = create_data_from_schema(&schema);
    match tuple.data_at(0) {
        ColumnData::String(s) => assert_eq!(s, "placeholder"),
        other => panic!("expected a string, got {:?}", other),
    }
}

#[test]
fn tuple_preserves_insertion_order() {
    let mut tuple = Tuple::new();
    assert_eq!(tuple.num_fields(), 0);
    tuple.add_field_data("first", ColumnData::Integer(1));
    tuple.add_field_data("second", ColumnData::String("two".to_string()));
    assert_eq!(tuple.num_fields(), 2);
    assert_eq!(tuple.name_at(0), "first");
    assert_eq!(tuple.name_at(1), "second");
    assert!(matches!(tuple.data_at(0), ColumnData::Integer(1)));
}

struct CountingWriter {
    records_ok: bool,
    lists_ok: bool,
    writes: usize,
    flushes: usize,
}

impl TupleWriter for CountingWriter {
    fn supports_list(&self) -> bool {
        self.lists_ok
    }

    fn supports_record(&self) -> bool {
        self.records_ok
    }

    fn write_tuple(&mut self, _tuple: &Tuple) -> Result<(), WriteError> {
        self.writes += 1;
        Ok(())
    }

    fn flush(&mut self) -> Result<(), WriteError> {
        self.flushes += 1;
        Ok(())
    }
}

#[test]
fn capability_check_rejects_record_schema_before_any_write() {
    let schema = parse("table t(r record(a integer,),);").unwrap();
    let mut writer = CountingWriter { records_ok: false, lists_ok: true, writes: 0, flushes: 0 };
    let err = run_pipeline(&schema, &mut writer, 5).unwrap_err();
    assert!(matches!(err.kind, PipelineErrorKind::Capability(CapabilityError::RecordsNotSupported)));
    assert_eq!(err.written, 0);
    assert_eq!(writer.writes, 0);
}

#[test]
fn capability_check_rejects_list_schema_before_any_write() {
    let schema = parse("table t(xs list(integer),);").unwrap();
    let mut writer = CountingWriter { records_ok: true, lists_ok: false, writes: 0, flushes: 0 };
    let err = run_pipeline(&schema, &mut writer, 3).unwrap_err();
    assert!(matches!(err.kind, PipelineErrorKind::Capability(CapabilityError::ListsNotSupported)));
    assert_eq!(err.written, 0);
    assert_eq!(writer.writes, 0);
}

#[test]
fn pipeline_writes_each_tuple_then_flushes() {
    let schema = parse("table t(a integer, b string,);").unwrap();
    let mut writer = CountingWriter { records_ok: false, lists_ok: false, writes: 0, flushes: 0 };
    let written = run_pipeline(&schema, &mut writer, 7).unwrap();
    assert_eq!(written, 7);
    assert_eq!(writer.writes, 7);
    assert_eq!(writer.flushes, 1);
}

#[test]
fn capability_check_passes_flat_schema_everywhere() {
    let schema = parse("table t(a integer,);").unwrap();
    assert!(check_capabilities(&schema, false, false).is_ok());
    assert!(check_capabilities(&schema, true, true).is_ok());
}

#[test]
fn capability_check_reports_records_first() {
    let schema = parse("table t(r record(xs list(integer),),);").unwrap();
    assert_eq!(
        check_capabilities(&schema, false, false).unwrap_err(),
        CapabilityError::RecordsNotSupported
    );
    assert_eq!(
        check_capabilities(&schema, true, false).unwrap_err(),
        CapabilityError::ListsNotSupported
    );
    assert!(check_capabilities(&schema, true, true).is_ok());
}

#[test]
fn csv_serializer_declares_no_structural_support() {
    let sink: Vec<u8> = Vec::new();
    let s = TupleToCSVSerializer::new(sink);
    assert!(!s.supports_record());
    assert!(!s.supports_list());
}

#[test]
fn json_serializer_declares_full_structural_support() {
    let sink: Vec<u8> = Vec::new();
    let s = TupleToJsonSerializer::new(sink, false);
    assert!(s.supports_record());
    assert!(s.supports_list());
    assert!(!s.pretty_print);
}

#[test]
fn integers_render_as_decimal_text() {
    assert_eq!(i64_to_decimal(0), "0");
    assert_eq!(i64_to_decimal(42), "42");
    assert_eq!(i64_to_decimal(-17), "-17");
    assert_eq!(i64_to_decimal(i64::MAX), "9223372036854775807");
    assert_eq!(i64_to_decimal(i64::MIN), "-9223372036854775808");
}

#[test]
fn csv_join_separates_cells_with_commas() {
    assert_eq!(csv_join(&vec![]), "");
    assert_eq!(csv_join(&vec!["a".to_string()]), "a");
    assert_eq!(csv_join(&vec!["a".to_string(), "b".to_string(), "c".to_string()]), "a,b,c");
    assert_eq!(csv_join(&vec!["".to_string(), "".to_string()]), ",");
}

struct FailingWriter {
    fail_after: usize,
    writes: usize,
}

impl TupleWriter for FailingWriter {
    fn supports_list(&self) -> bool {
        true
    }

    fn supports_record(&self) -> bool {
        true
    }

    fn write_tuple(&mut self, _tuple: &Tuple) -> Result<(), WriteError> {
        if self.writes == self.fail_after {
            return Err(WriteError::Io("sink closed".to_string()));
        }
        self.writes += 1;
        Ok(())
    }

    fn flush(&mut self) -> Result<(), WriteError> {
        Ok(())
    }
}

#[test]
fn write_failure_halts_the_loop_and_reports_the_count() {
    let schema = parse("table t(a integer,);").unwrap();
    let mut writer = FailingWriter { fail_after: 2, writes: 0 };
    let err = run_pipeline(&schema, &mut writer, 5).unwrap_err();
    match err.kind {
        PipelineErrorKind::Write(WriteError::Io(msg)) => assert_eq!(msg, "sink closed"),
        other => panic!("expected an io failure, got {:?}", other),
    }
    assert_eq!(err.written, 2);
    assert_eq!(writer.writes, 2);
}

#[test]
fn csv_cells_renders_scalars_in_order() {
    let mut tuple = Tuple::new();
    tuple.add_field_data("n", ColumnData::Integer(-5));
    tuple.add_field_data("x", ColumnData::Float((1.5f64).to_bits()));
    tuple.add_field_data("s", ColumnData::String("hi".to_string()));
    let cells = csv_cells(&tuple).unwrap();
    assert_eq!(cells.len(), 3);
    match &cells[0] {
        CsvCell::Text(s) => assert_eq!(s, "-5"),
        other => panic!("expected text, got {:?}", other),
    }
    match &cells[1] {
        CsvCell::FloatBits(bits) => assert_eq!(f64::from_bits(*bits), 1.5),
        other => panic!("expected float bits, got {:?}", other),
    }
    match &cells[2] {
        CsvCell::Text(s) => assert_eq!(s, "hi"),
        other => panic!("expected text, got {:?}", other),
    }
}

#[test]
fn csv_cells_rejects_nested_shapes() {
    let mut tuple = Tuple::new();
    tuple.add_field_data("xs", ColumnData::List(vec![ColumnData::Integer(1)]));
    assert!(matches!(csv_cells(&tuple), Err(WriteError::UnsupportedShape)));
    let mut tuple2 = Tuple::new();
    tuple2.add_field_data("r", ColumnData::Record(Tuple::new()));
    assert!(matches!(csv_cells(&tuple2), Err(WriteError::UnsupportedShape)));
}
