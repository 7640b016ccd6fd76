use minisql::{
    Column, ExecResponse, Execution, QueryExceptionError, Row, SQLError, SqlTypeInfo, Table,
    TableIter,
};

fn col(name: &str, type_info: SqlTypeInfo) -> Column {
    Column { name: name.to_string(), type_info }
}

#[test]
fn round_trip_create_insert_select() {
    let mut exec = Execution::new();
    assert!(matches!(exec.parse_and_run("CREATE TABLE t (a int);"), Ok(ExecResponse::Create)));
    assert!(matches!(exec.parse_and_run("INSERT INTO t VALUES 5;"), Ok(ExecResponse::Insert)));
    match exec.parse_and_run("SELECT a FROM t;") {
        Ok(ExecResponse::Select(rows)) => {
            assert_eq!(rows.len(), 1);
            assert_eq!(rows[0].get(&"a".to_string()), "5");
        }
        other => panic!("expected one row, got {other:?}"),
    }
}

#[test]
fn end_to_end_scenario() {
    let mut exec = Execution::new();
    let r1 = exec.parse_and_run("CREATE TABLE foo (col1 int, col2 string);").unwrap();
    assert!(matches!(r1, ExecResponse::Create));
    let r2 = exec.parse_and_run("INSERT INTO foo VALUES 1,hello;").unwrap();
    assert!(matches!(r2, ExecResponse::Insert));
    match exec.parse_and_run("SELECT col1, col2 FROM foo;").unwrap() {
        ExecResponse::Select(rows) => {
            assert_eq!(rows.len(), 1);
            assert_eq!(rows[0].get(&"col1".to_string()), "1");
            assert_eq!(rows[0].get(&"col2".to_string()), "hello");
        }
        other => panic!("expected rows, got {other:?}"),
    }
}

#[test]
fn row_ids_are_dense_and_per_table() {
    let mut exec = Execution::new();
    exec.parse_and_run("CREATE TABLE a (x int);").unwrap();
    exec.parse_and_run("CREATE TABLE b (y int);").unwrap();
    exec.parse_and_run("INSERT INTO a VALUES 1;").unwrap();
    exec.parse_and_run("INSERT INTO b VALUES 10;").unwrap();
    exec.parse_and_run("INSERT INTO a VALUES 2;").unwrap();
    exec.parse_and_run("INSERT INTO a VALUES 3;").unwrap();
    exec.parse_and_run("INSERT INTO b VALUES 20;").unwrap();
    match exec.parse_and_run("SELECT x FROM a;").unwrap() {
        ExecResponse::Select(rows) => {
            let ids: Vec<usize> = rows.iter().map(|r| r.id).collect();
            assert_eq!(ids, vec![0, 1, 2]);
            let xs: Vec<String> = rows.iter().map(|r| r.get(&"x".to_string())).collect();
            assert_eq!(xs, vec!["1".to_string(), "2".to_string(), "3".to_string()]);
        }
        other => panic!("expected rows, got {other:?}"),
    }
    match exec.parse_and_run("SELECT y FROM b;").unwrap() {
        ExecResponse::Select(rows) => {
            let ids: Vec<usize> = rows.iter().map(|r| r.id).collect();
            assert_eq!(ids, vec![0, 1]);
        }
        other => panic!("expected rows, got {other:?}"),
    }
}

#[test]
fn select_is_idempotent() {
    let mut exec = Execution::new();
    exec.parse_and_run("CREATE TABLE t (a int, b string);").unwrap();
    exec.parse_and_run("INSERT INTO t VALUES 1,x;").unwrap();
    exec.parse_and_run("INSERT INTO t VALUES 2,y;").unwrap();
    let first = exec.parse_and_run("SELECT a FROM t;").unwrap();
    let second = exec.parse_and_run("SELECT a FROM t;").unwrap();
    assert_eq!(first, second);
}

#[test]
fn missing_table_fails_and_leaves_store_unchanged() {
    let mut exec = Execution::new();
    exec.parse_and_run("CREATE TABLE kept (a int);").unwrap();
    exec.parse_and_run("INSERT INTO kept VALUES 7;").unwrap();
    let before = exec.parse_and_run("SELECT a FROM kept;").unwrap();

    match exec.parse_and_run("SELECT a FROM missingtable;") {
        Err(SQLError::QueryExceptionError(QueryExceptionError::TableNotFound(name))) => {
            assert_eq!(name, "missingtable");
        }
        other => panic!("expected a table-not-found error, got {other:?}"),
    }
    match exec.parse_and_run("INSERT INTO missing VALUES 1;") {
        Err(SQLError::QueryExceptionError(QueryExceptionError::TableNotFound(name))) => {
            assert_eq!(name, "missing");
        }
        other => panic!("expected a table-not-found error, got {other:?}"),
    }

    let after = exec.parse_and_run("SELECT a FROM kept;").unwrap();
    assert_eq!(before, after);
}

#[test]
fn insert_into_missing_table_reports_its_name() {
    let mut exec = Execution::new();
    match exec.parse_and_run("INSERT INTO nowhere VALUES 1;") {
        Err(SQLError::QueryExceptionError(QueryExceptionError::TableNotFound(name))) => {
            assert_eq!(name, "nowhere");
        }
        other => panic!("expected a table-not-found error, got {other:?}"),
    }
}

#[test]
fn parse_error_is_reported_through_the_pipeline() {
    let mut exec = Execution::new();
    match exec.parse_and_run("select fart;") {
        Err(SQLError::ParsingError(fe)) => {
            assert_eq!(fe.src, "select fart;");
        }
        other => panic!("expected a parse diagnostic, got {other:?}"),
    }
}

#[test]
fn create_overwrites_existing_table() {
    let mut exec = Execution::new();
    exec.parse_and_run("CREATE TABLE t (a int);").unwrap();
    exec.parse_and_run("INSERT INTO t VALUES 1;").unwrap();
    exec.parse_and_run("CREATE TABLE t (b string);").unwrap();
    match exec.parse_and_run("SELECT b FROM t;").unwrap() {
        ExecResponse::Select(rows) => assert_eq!(rows.len(), 0),
        other => panic!("expected an empty selection, got {other:?}"),
    }
}

#[test]
fn insert_truncates_to_the_shorter_of_values_and_columns() {
    let mut exec = Execution::new();
    exec.parse_and_run("CREATE TABLE t (a int, b string);").unwrap();
    exec.parse_and_run("INSERT INTO t VALUES 1;").unwrap();
    match exec.parse_and_run("SELECT a FROM t;").unwrap() {
        ExecResponse::Select(rows) => {
            assert_eq!(rows[0].try_get(&"a".to_string()).unwrap(), "1");
            // the second column got no value, so the row does not hold it
            match rows[0].try_get(&"b".to_string()) {
                Err(QueryExceptionError::ColumnDoesNotExists(name)) => assert_eq!(name, "b"),
                other => panic!("expected a missing-column error, got {other:?}"),
            }
        }
        other => panic!("expected rows, got {other:?}"),
    }

    exec.parse_and_run("CREATE TABLE u (a int);").unwrap();
    exec.parse_and_run("INSERT INTO u VALUES 1,2,3;").unwrap();
    match exec.parse_and_run("SELECT a FROM u;").unwrap() {
        ExecResponse::Select(rows) => {
            assert_eq!(rows.len(), 1);
            assert_eq!(rows[0].get(&"a".to_string()), "1");
        }
        other => panic!("expected rows, got {other:?}"),
    }
}

#[test]
fn try_get_unknown_column_errors() {
    let row = Row::new(vec![col("a", SqlTypeInfo::Int)], 0, vec!["1".to_string()]);
    assert_eq!(row.try_get(&"a".to_string()).unwrap(), "1");
    match row.try_get(&"zzz".to_string()) {
        Err(QueryExceptionError::ColumnDoesNotExists(name)) => assert_eq!(name, "zzz"),
        other => panic!("expected a missing-column error, got {other:?}"),
    }
}

#[test]
fn row_exposes_its_schema() {
    let columns = vec![col("a", SqlTypeInfo::Int), col("b", SqlTypeInfo::String)];
    let row = Row::new(columns.clone(), 3, vec!["1".to_string(), "x".to_string()]);
    assert_eq!(row.columns(), &columns);
    assert_eq!(row.id, 3);
}

#[test]
fn table_iter_hands_rows_out_in_order() {
    let mut table = Table::new(vec![col("a", SqlTypeInfo::Int)]);
    table.insert(vec!["1".to_string()]);
    table.insert(vec!["2".to_string()]);
    let mut it = table.iter();
    let first = it.next().unwrap();
    assert_eq!(first.id, 0);
    assert_eq!(first.get(&"a".to_string()), "1");
    let second = it.next().unwrap();
    assert_eq!(second.id, 1);
    assert_eq!(second.get(&"a".to_string()), "2");
    assert!(it.next().is_none());
}

#[test]
fn table_iter_new_wraps_rows() {
    let rows = vec![Row::new(vec![col("a", SqlTypeInfo::Int)], 0, vec!["1".to_string()])];
    let mut it = TableIter::new(rows);
    assert_eq!(it.next().unwrap().get(&"a".to_string()), "1");
    assert!(it.next().is_none());
}

#[test]
fn duplicate_column_names_keep_the_last_value() {
    let mut exec = Execution::new();
    exec.parse_and_run("CREATE TABLE t (a int, a int);").unwrap();
    exec.parse_and_run("INSERT INTO t VALUES 1,2;").unwrap();
    match exec.parse_and_run("SELECT a FROM t;").unwrap() {
        ExecResponse::Select(rows) => {
            assert_eq!(rows[0].get(&"a".to_string()), "2");
        }
        other => panic!("expected rows, got {other:?}"),
    }
}

#[test]
fn unicode_table_and_column_names_round_trip() {
    let mut exec = Execution::new();
    exec.parse_and_run("CREATE TABLE tabl\u{e9} (a\u{e9} int);").unwrap();
    exec.parse_and_run("INSERT INTO tabl\u{e9} VALUES 5;").unwrap();
    match exec.parse_and_run("SELECT a\u{e9} FROM tabl\u{e9};").unwrap() {
        ExecResponse::Select(rows) => {
            assert_eq!(rows.len(), 1);
            assert_eq!(rows[0].get(&"a\u{e9}".to_string()), "5");
        }
        other => panic!("expected one row, got {other:?}"),
    }
}
