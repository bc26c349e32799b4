use logic_test::db::Output;
use logic_test::db::Row;
use logic_test::db::Type;
use logic_test::db::sqlite::Error;
use logic_test::db::sqlite::Query;
use logic_test::db::sqlite::Sqlite;
use logic_test::db::sqlite::render_cell;
use logic_test::db::sqlite::resolve_decl_types;
use logic_test::db::sqlite::CellValue;
use logic_test::db::sqlite::assemble_rows;
use logic_test::error::LogicTestError;

fn rows_of(rows: &[&[&str]]) -> Vec<Row> {
    rows.iter()
        .map(|r| Row(r.iter().map(|c| c.to_string()).collect()))
        .collect()
}

#[test]
fn constructor() {
    let _ = Sqlite::new_memory().unwrap();
}

#[test]
fn sqlite_execute() {
    let mut db = Sqlite::new_memory().unwrap();

    let out = db.execute_inner("CREATE TABLE Foo (a INTEGER, b TEXT)").unwrap();
    assert_eq!(out, Output::StatementComplete(0));
    let out = db.execute_inner("INSERT INTO Foo VALUES (1, 'a')").unwrap();
    assert_eq!(out, Output::StatementComplete(1));
    let out = db.execute_inner("INSERT INTO Foo VALUES (2, 'b'), (3, 'c')").unwrap();
    assert_eq!(out, Output::StatementComplete(2));

    let out = db.execute_inner("SELECT * FROM Foo").unwrap();
    assert_eq!(
        out,
        Output::Rows {
            types: vec![Type::Integer, Type::Text],
            rows: rows_of(&[&["1", "a"], &["2", "b"], &["3", "c"]]),
        }
    );

    let out = db.execute_inner("UPDATE Foo SET a = 10 WHERE a = 1").unwrap();
    assert_eq!(out, Output::StatementComplete(1));
    let out = db.execute_inner("SELECT * FROM Foo").unwrap();
    assert_eq!(
        out,
        Output::Rows {
            types: vec![Type::Integer, Type::Text],
            rows: rows_of(&[&["10", "a"], &["2", "b"], &["3", "c"]]),
        }
    );

    let out = db.execute_inner("DELETE FROM Foo WHERE a = 10").unwrap();
    assert_eq!(out, Output::StatementComplete(1));
    let out = db.execute_inner("SELECT * FROM Foo").unwrap();
    assert_eq!(
        out,
        Output::Rows {
            types: vec![Type::Integer, Type::Text],
            rows: rows_of(&[&["2", "b"], &["3", "c"]]),
        }
    );
}

#[test]
fn round_trip() {
    // Create, insert, select: the typed rows come back stringified.
    let mut db = Sqlite::new_memory().unwrap();
    db.execute_inner("CREATE TABLE T(a INTEGER, b TEXT)").unwrap();
    let out = db.execute_inner("INSERT INTO T VALUES (1,'a')").unwrap();
    assert_eq!(out, Output::StatementComplete(1));
    let out = db.execute_inner("SELECT * FROM T").unwrap();
    assert_eq!(
        out,
        Output::Rows {
            types: vec![Type::Integer, Type::Text],
            rows: rows_of(&[&["1", "a"]]),
        }
    );
}

#[test]
fn classify_select_and_update() {
    assert_eq!(Query::classify("SELECT * FROM test"), Some(Query::Query));
    assert_eq!(Query::classify("select * from test"), Some(Query::Query));
    assert_eq!(Query::classify("UPDATE test SET a=1"), Some(Query::Execute));
    assert_eq!(Query::classify("  SeLeCt 1"), Some(Query::Query));
    assert_eq!(Query::classify("sel"), Some(Query::Execute));
    // The token must equal the keyword, not merely start with it.
    assert_eq!(Query::classify("SELECTX 1"), Some(Query::Execute));
    assert_eq!(Query::classify("SELECT"), Some(Query::Query));
    assert_eq!(Query::classify("SELECT\t1"), Some(Query::Query));
    assert_eq!(Query::classify(""), None);
    assert_eq!(Query::classify(" \t\n"), None);
}

#[test]
fn empty_statement_is_an_error() {
    let mut db = Sqlite::new_memory().unwrap();
    let r = db.execute_inner("   ");
    assert!(matches!(
        r,
        Err(LogicTestError::Sqlite(Error::EmptyQuery))
    ));
}

#[test]
fn engine_error_is_surfaced() {
    let mut db = Sqlite::new_memory().unwrap();
    let r = db.execute_inner("SELECT * FROM missing_table");
    match r {
        Err(LogicTestError::Sqlite(Error::Sqlite(msg))) => {
            assert!(!msg.is_empty());
        }
        other => panic!("expected an engine error, got {:?}", other),
    }
}

#[test]
fn mismatched_cell_is_an_error() {
    // The engine stores non-numeric text even in an integer column; reading
    // it at the resolved type is then a cell-type error.
    let mut db = Sqlite::new_memory().unwrap();
    db.execute_inner("CREATE TABLE t(a INTEGER)").unwrap();
    db.execute_inner("INSERT INTO t VALUES ('abc')").unwrap();
    let r = db.execute_inner("SELECT * FROM t");
    assert!(matches!(
        r,
        Err(LogicTestError::Sqlite(Error::CellType { column: 0 }))
    ));
}

#[test]
fn expression_column_resolves_to_any() {
    // An expression column has no declared type: the sentinel, read as text.
    let mut db = Sqlite::new_memory().unwrap();
    db.execute_inner("CREATE TABLE t(a TEXT)").unwrap();
    db.execute_inner("INSERT INTO t VALUES ('x')").unwrap();
    let out = db.execute_inner("SELECT a || 'y' FROM t").unwrap();
    assert_eq!(
        out,
        Output::Rows {
            types: vec![Type::Any],
            rows: rows_of(&[&["xy"]]),
        }
    );
}

#[test]
fn declared_types_resolve_by_fixed_lookup() {
    let decls = vec![
        Some("INTEGER".to_string()),
        Some("integer".to_string()),
        Some("TeXt".to_string()),
        Some("FLOAT".to_string()),
        Some("VARCHAR".to_string()),
        None,
    ];
    let (types, unrecognized) = resolve_decl_types(&decls);
    assert_eq!(
        types,
        vec![
            Type::Integer,
            Type::Integer,
            Type::Text,
            Type::FloatingPoint,
            Type::Any,
            Type::Any,
        ]
    );
    // The unrecognized names are reported as data; absent declarations are
    // not names at all.
    assert_eq!(unrecognized, vec!["VARCHAR".to_string()]);
}

#[test]
fn unrecognized_declared_type_is_surfaced() {
    let mut db = Sqlite::new_memory().unwrap();
    assert!(db.unrecognized_decl_names().is_empty());
    db.execute_inner("CREATE TABLE t(a VARCHAR(10), b INTEGER)").unwrap();
    db.execute_inner("INSERT INTO t VALUES ('x', 4)").unwrap();
    let out = db.execute_inner("SELECT * FROM t").unwrap();
    assert_eq!(
        out,
        Output::Rows {
            types: vec![Type::Any, Type::Integer],
            rows: rows_of(&[&["x", "4"]]),
        }
    );
    assert_eq!(db.unrecognized_decl_names(), &vec!["VARCHAR(10)".to_string()]);
    // An effect statement leaves the record of the last read untouched.
    db.execute_inner("CREATE TABLE u(c INTEGER)").unwrap();
    assert_eq!(db.unrecognized_decl_names().len(), 1);
}

#[test]
fn fetched_rows_assemble_at_their_types() {
    let types = vec![Type::Integer, Type::Text];
    let raw = vec![
        vec![CellValue::Integer(1), CellValue::Text("a".to_string())],
        vec![CellValue::Integer(2), CellValue::Text("b".to_string())],
    ];
    assert_eq!(
        assemble_rows(types, &raw),
        Ok(Output::Rows {
            types: vec![Type::Integer, Type::Text],
            rows: rows_of(&[&["1", "a"], &["2", "b"]]),
        })
    );

    let types = vec![Type::Integer];
    let raw = vec![vec![CellValue::Text("abc".to_string())]];
    assert_eq!(
        assemble_rows(types, &raw),
        Err(Error::CellType { column: 0 })
    );
}

#[test]
fn cells_render_at_their_column_type() {
    assert_eq!(
        render_cell(Type::Integer, &CellValue::Integer(-7), 0).unwrap(),
        "-7"
    );
    assert_eq!(
        render_cell(Type::Text, &CellValue::Text("hi".to_string()), 0).unwrap(),
        "hi"
    );
    assert_eq!(
        render_cell(Type::FloatingPoint, &CellValue::Real("1.5".to_string()), 0).unwrap(),
        "1.5"
    );
    assert_eq!(
        render_cell(Type::FloatingPoint, &CellValue::Integer(2), 0).unwrap(),
        "2"
    );
    assert!(matches!(
        render_cell(Type::Integer, &CellValue::Null, 3),
        Err(Error::CellType { column: 3 })
    ));
}
