use logic_test::db::Type;
use logic_test::db::flattened_cells;
use logic_test::db::gluesql::Value;
use logic_test::db::gluesql::value_text;

#[test]
fn sql_type_names_fold_case() {
    assert_eq!(Type::from_sql_type("TEXT"), Some(Type::Text));
    assert_eq!(Type::from_sql_type("text"), Some(Type::Text));
    assert_eq!(Type::from_sql_type("TeXt"), Some(Type::Text));
    assert_eq!(Type::from_sql_type("INTEGER"), Some(Type::Integer));
    assert_eq!(Type::from_sql_type("FLOAT"), Some(Type::FloatingPoint));
    assert_eq!(Type::from_sql_type("VARCHAR"), None);
    assert_eq!(Type::from_sql_type(""), None);
    assert_eq!(Type::from_sql_type("INTEGERS"), None);
}

#[test]
fn type_codes_round_trip() {
    // The single-character codes map both ways.
    for t in [Type::Text, Type::Integer, Type::FloatingPoint, Type::Any] {
        assert_eq!(Type::from_char(t.to_char()), Some(t));
    }
    assert_eq!(Type::Text.to_char(), 'T');
    assert_eq!(Type::Integer.to_char(), 'I');
    assert_eq!(Type::FloatingPoint.to_char(), 'R');
    assert_eq!(Type::Any.to_char(), '?');
    assert_eq!(Type::from_char('X'), Some(Type::Any));
}

#[test]
fn values_render_as_display_text() {
    assert_eq!(value_text(&Value::I8(-128)), "-128");
    assert_eq!(value_text(&Value::I64(0)), "0");
    assert_eq!(value_text(&Value::I64(-9223372036854775808)), "-9223372036854775808");
    assert_eq!(
        value_text(&Value::I128(i128::MIN)),
        "-170141183460469231731687303715884105728"
    );
    assert_eq!(
        value_text(&Value::U128(u128::MAX)),
        "340282366920938463463374607431768211455"
    );
    assert_eq!(value_text(&Value::U16(65535)), "65535");
    assert_eq!(value_text(&Value::Bool(true)), "TRUE");
    assert_eq!(value_text(&Value::Bool(false)), "FALSE");
    assert_eq!(value_text(&Value::Null), "NULL");
    assert_eq!(value_text(&Value::Str("verbatim".to_string())), "verbatim");
    assert_eq!(value_text(&Value::Float(2.5f64.to_string())), "2.5");
    assert_eq!(value_text(&Value::Other("2024-01-01".to_string())), "2024-01-01");
}

#[test]
fn rows_flatten_value_wise() {
    let rows = vec![
        vec!["1".to_string(), "a".to_string()],
        vec![],
        vec!["2".to_string()],
    ];
    assert_eq!(flattened_cells(&rows), vec!["1", "a", "2"]);
    assert_eq!(flattened_cells(&vec![]), Vec::<String>::new());
}
