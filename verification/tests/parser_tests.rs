use datame::parser::{parse, ParseErrorKind};
use datame::schema::{FieldType, RecordSchema};

fn field_names(schema: &RecordSchema) -> Vec<String> {
    let mut names = Vec::new();
    let mut i = 0;
    while i < schema.num_fields() {
        names.push(schema.field_at(i).get_name().to_string());
        i += 1;
    }
    names
}

#[test]
fn parses_two_scalar_fields() {
    let schema = parse("table foo(total float, name string,);").unwrap();
    assert_eq!(field_names(&schema), vec!["total".to_string(), "name".to_string()]);
    assert!(matches!(schema.field_at(0).get_type(), FieldType::Float(_)));
    assert!(matches!(schema.field_at(1).get_type(), FieldType::String(_)));
    assert!(!schema.contains_record());
    assert!(!schema.contains_list());
}

#[test]
fn parses_list_of_integer() {
    let schema = parse("table t(items list(integer),);").unwrap();
    assert_eq!(schema.num_fields(), 1);
    assert_eq!(schema.field_at(0).get_name(), "items");
    match schema.field_at(0).get_type() {
        FieldType::List(inner) => assert!(matches!(&**inner, FieldType::Integer(_))),
        other => panic!("expected a list type, got {:?}", other),
    }
    assert!(schema.contains_list());
    assert!(!schema.contains_record());
}

#[test]
fn unbalanced_input_is_a_delimiter_error() {
    let err = parse("table t(a integer").unwrap_err();
    assert_eq!(err.kind, ParseErrorKind::UnbalancedDelimiter);
}

#[test]
fn parsing_twice_gives_structurally_equal_schemas() {
    let text = "table sales(total float, items list(record(name string, qty integer,)),);";
    let a = parse(text).unwrap();
    let b = parse(text).unwrap();
    assert!(schemas_equal(&a, &b));
}

fn types_equal(a: &FieldType, b: &FieldType) -> bool {
    match (a, b) {
        (FieldType::Integer(_), FieldType::Integer(_)) => true,
        (FieldType::Float(_), FieldType::Float(_)) => true,
        (FieldType::String(_), FieldType::String(_)) => true,
        (FieldType::List(x), FieldType::List(y)) => types_equal(x, y),
        (FieldType::Record(x), FieldType::Record(y)) => schemas_equal(x, y),
        _ => false,
    }
}

fn schemas_equal(a: &RecordSchema, b: &RecordSchema) -> bool {
    if a.num_fields() != b.num_fields() {
        return false;
    }
    if a.contains_record() != b.contains_record() || a.contains_list() != b.contains_list() {
        return false;
    }
    let mut i = 0;
    while i < a.num_fields() {
        let fa = a.field_at(i);
        let fb = b.field_at(i);
        if fa.get_name() != fb.get_name() || !types_equal(fa.get_type(), fb.get_type()) {
            return false;
        }
        i += 1;
    }
    true
}

#[test]
fn keywords_are_case_insensitive() {
    let schema = parse("TABLE T(A INTEGER, b FlOaT,);").unwrap();
    assert_eq!(schema.num_fields(), 2);
    assert_eq!(schema.field_at(0).get_name(), "A");
    assert!(matches!(schema.field_at(0).get_type(), FieldType::Integer(_)));
    assert!(matches!(schema.field_at(1).get_type(), FieldType::Float(_)));
}

#[test]
fn whitespace_between_tokens_is_free() {
    let schema = parse("  table \t foo ( a integer , b string , )  ;  ").unwrap();
    assert_eq!(field_names(&schema), vec!["a".to_string(), "b".to_string()]);
}

#[test]
fn empty_field_list_parses() {
    let schema = parse("table t();").unwrap();
    assert_eq!(schema.num_fields(), 0);
    assert!(!schema.contains_record());
    assert!(!schema.contains_list());
}

#[test]
fn duplicate_field_names_are_permitted() {
    let schema = parse("table t(a integer,a integer,);").unwrap();
    assert_eq!(schema.num_fields(), 2);
    assert_eq!(schema.field_at(0).get_name(), "a");
    assert_eq!(schema.field_at(1).get_name(), "a");
}

#[test]
fn nested_records_set_flags_through_all_levels() {
    let schema = parse("table t(a record(b record(c list(integer),),),);").unwrap();
    assert!(schema.contains_record());
    assert!(schema.contains_list());
}

#[test]
fn missing_table_keyword() {
    let err = parse("chair t(a integer,);").unwrap_err();
    assert_eq!(err.kind, ParseErrorKind::ExpectedKeyword);
    assert_eq!(err.offset, 0);
}

#[test]
fn missing_space_after_table_keyword() {
    let err = parse("table(a integer,);").unwrap_err();
    assert_eq!(err.kind, ParseErrorKind::ExpectedSpace);
}

#[test]
fn missing_table_name() {
    let err = parse("table (a integer,);").unwrap_err();
    assert_eq!(err.kind, ParseErrorKind::ExpectedIdent);
}

#[test]
fn missing_open_parenthesis() {
    let err = parse("table t;").unwrap_err();
    assert_eq!(err.kind, ParseErrorKind::ExpectedOpen);
}

#[test]
fn missing_comma_after_field() {
    let err = parse("table t(a integer);").unwrap_err();
    assert_eq!(err.kind, ParseErrorKind::ExpectedComma);
}

#[test]
fn unknown_type_keyword() {
    let err = parse("table t(a blob,);").unwrap_err();
    assert_eq!(err.kind, ParseErrorKind::UnknownFieldType);
    assert_eq!(err.offset, 10);
}

#[test]
fn missing_close_after_list_element_type() {
    let err = parse("table t(a list(integer x),);").unwrap_err();
    assert_eq!(err.kind, ParseErrorKind::ExpectedClose);
}

#[test]
fn missing_terminator() {
    let err = parse("table t(a integer,)").unwrap_err();
    assert_eq!(err.kind, ParseErrorKind::ExpectedTerminator);
}

#[test]
fn trailing_input_after_terminator() {
    let err = parse("table t(a integer,); more").unwrap_err();
    assert_eq!(err.kind, ParseErrorKind::TrailingInput);
    assert_eq!(err.offset, 21);
}

#[test]
fn missing_space_between_field_name_and_type() {
    let err = parse("table t(a(integer),);").unwrap_err();
    assert_eq!(err.kind, ParseErrorKind::ExpectedSpace);
}

#[test]
fn unbalanced_nested_record() {
    let err = parse("table t(a record(b integer,);").unwrap_err();
    assert_eq!(err.kind, ParseErrorKind::UnbalancedDelimiter);
}

#[test]
fn field_error_inside_nested_record_surfaces() {
    let err = parse("table t(a record(b blob,),);").unwrap_err();
    assert_eq!(err.kind, ParseErrorKind::UnknownFieldType);
}
