use logic_test::db::Type;
use logic_test::db::gluesql::Value;
use logic_test::db::gluesql::infer_result_types;

#[test]
fn test_result_type_inference() {
    let labels = vec![
        "id".to_string(),
        "name".to_string(),
        "score".to_string(),
        "active".to_string(),
    ];
    let rows = vec![
        vec![
            Value::I32(1),
            Value::Str("Alice".to_string()),
            Value::Float(95.5f64.to_string()),
            Value::Bool(true),
        ],
        vec![
            Value::I32(2),
            Value::Str("Bob".to_string()),
            Value::Float(87.2f64.to_string()),
            Value::Bool(false),
        ],
    ];

    let types = infer_result_types(&labels, &rows);

    assert_eq!(types.len(), 4);
    assert_eq!(types[0], Type::Integer); // id
    assert_eq!(types[1], Type::Text); // name
    assert_eq!(types[2], Type::FloatingPoint); // score
    assert_eq!(types[3], Type::Integer); // active (bool maps to integer)
}

#[test]
fn test_result_type_inference_with_nulls() {
    // Null values are skipped: the first non-null value decides.
    let labels = vec!["value".to_string()];
    let rows = vec![
        vec![Value::Null],
        vec![Value::Str("test".to_string())],
        vec![Value::Null],
    ];

    let types = infer_result_types(&labels, &rows);

    assert_eq!(types.len(), 1);
    assert_eq!(types[0], Type::Text);
}

#[test]
fn test_result_type_inference_all_nulls() {
    // A column whose every value is null resolves to the sentinel.
    let labels = vec!["value".to_string()];
    let rows = vec![vec![Value::Null], vec![Value::Null]];

    let types = infer_result_types(&labels, &rows);

    assert_eq!(types.len(), 1);
    assert_eq!(types[0], Type::Any);
}

#[test]
fn test_result_type_inference_empty_result() {
    // A column with no rows at all resolves to the sentinel.
    let labels = vec!["value".to_string()];
    let rows: Vec<Vec<Value>> = vec![];

    let types = infer_result_types(&labels, &rows);

    assert_eq!(types.len(), 1);
    assert_eq!(types[0], Type::Any);
}

#[test]
fn first_non_null_wins() {
    // [Null, "x", Null] resolves to Text: nulls skipped, first non-null wins.
    let labels = vec!["c".to_string()];
    let rows = vec![
        vec![Value::Null],
        vec![Value::Str("x".to_string())],
        vec![Value::Null],
    ];
    assert_eq!(infer_result_types(&labels, &rows), vec![Type::Text]);

    // The first non-null value decides even when later kinds differ.
    let rows = vec![
        vec![Value::Null],
        vec![Value::Float(1.5f64.to_string())],
        vec![Value::I64(7)],
    ];
    assert_eq!(infer_result_types(&labels, &rows), vec![Type::FloatingPoint]);
}

#[test]
fn inference_skips_short_rows() {
    // A row without the column is skipped, like a null.
    let labels = vec!["a".to_string(), "b".to_string()];
    let rows = vec![
        vec![Value::I64(1)],
        vec![Value::I64(2), Value::Str("s".to_string())],
    ];
    assert_eq!(
        infer_result_types(&labels, &rows),
        vec![Type::Integer, Type::Text]
    );
}
