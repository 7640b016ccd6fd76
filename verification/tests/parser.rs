use minisql::{
    parse_sql_query, Column, CreateStatement, ExpectKind, SelectStatement, SqlQuery, SqlTypeInfo,
};

#[test]
fn test_error() {
    let query = SqlQuery::parse_from_raw("select fart;");
    assert!(query.is_err(), "expected parse to fail, got {query:?}");
}

#[test]
fn ast_test_select() {
    let expected = SelectStatement {
        table: "t1".to_string(),
        fields: vec!["foo".to_string(), "bar".to_string()],
    };
    assert_eq!(
        SqlQuery::parse_from_raw("select foo, bar from t1;").unwrap().1,
        SqlQuery::Select(expected)
    );
}

#[test]
fn test_create() {
    let expected = CreateStatement {
        table: "foo".into(),
        columns: vec![
            Column {
                name: "col1".into(),
                type_info: SqlTypeInfo::Int,
            },
            Column {
                name: "col2".into(),
                type_info: SqlTypeInfo::String,
            },
            Column {
                name: "col3".into(),
                type_info: SqlTypeInfo::String,
            },
        ],
    };

    assert_eq!(
        CreateStatement::parse_from_raw("CREATE TABLE foo (col1 int, col2 string, col3 string)")
            .unwrap()
            .1,
        expected
    );
}

#[test]
fn select_test_select() {
    let select_statement = SelectStatement {
        table: "t1".into(),
        fields: vec!["foo".into(), "bar".into()],
    };

    assert_eq!(
        select_statement,
        SelectStatement::parse_from_raw("SELECT foo, bar FROM t1").unwrap().1
    );
}

#[test]
fn keywords_are_case_insensitive() {
    let q = parse_sql_query("SeLeCt a FrOm t;").unwrap();
    let expected = SelectStatement {
        table: "t".to_string(),
        fields: vec!["a".to_string()],
    };
    assert_eq!(q, SqlQuery::Select(expected));
}

#[test]
fn insert_parses_bare_tokens() {
    let q = parse_sql_query("INSERT INTO foo VALUES 1,hello;").unwrap();
    match q {
        SqlQuery::Insert(ins) => {
            assert_eq!(ins.table, "foo");
            assert_eq!(ins.values, vec!["1".to_string(), "hello".to_string()]);
        }
        other => panic!("expected an insert statement, got {other:?}"),
    }
}

#[test]
fn create_preserves_declaration_order() {
    let q = parse_sql_query("CREATE TABLE foo (col1 int, col2 string);").unwrap();
    match q {
        SqlQuery::Create(cr) => {
            assert_eq!(cr.table, "foo");
            assert_eq!(cr.columns.len(), 2);
            assert_eq!(cr.columns[0].name, "col1");
            assert_eq!(cr.columns[0].type_info, SqlTypeInfo::Int);
            assert_eq!(cr.columns[1].name, "col2");
            assert_eq!(cr.columns[1].type_info, SqlTypeInfo::String);
        }
        other => panic!("expected a create statement, got {other:?}"),
    }
}

#[test]
fn missing_comma_points_at_unexpected_token() {
    let err = parse_sql_query("SELECT foo bar FROM t;").unwrap_err();
    // after the projection list ends at `foo`, the grammar wants `from` but
    // finds `bar` at byte offset 11
    assert_eq!(err.span.offset, 11);
    assert_eq!(err.span.length, 0);
    assert_eq!(err.kind, ExpectKind::Tag("from".to_string()));
}

#[test]
fn missing_semicolon_is_rejected() {
    let err = parse_sql_query("select a from t").unwrap_err();
    assert_eq!(err.kind, ExpectKind::Char(';'));
    assert_eq!(err.span.offset, 15);
}

#[test]
fn trailing_garbage_is_rejected() {
    let err = parse_sql_query("select a from t; more").unwrap_err();
    assert_eq!(err.kind, ExpectKind::Eof);
    assert_eq!(err.span.offset, 17);
}

#[test]
fn bad_column_type_names_column_type_context() {
    let err = parse_sql_query("CREATE TABLE t (c1 decimal)").unwrap_err();
    // the type keyword starts at byte offset 19, where `decimal` stands
    assert_eq!(err.span.offset, 19);
    assert_eq!(err.kind, ExpectKind::Tag("string".to_string()));
    assert!(
        err.others.iter().any(|c| c.context == "Column Type"),
        "expected a related span naming the column-type rule, got {:?}",
        err.others
    );
}

#[test]
fn contexts_are_listed_outer_to_inner() {
    let err = parse_sql_query("CREATE TABLE t (c1 decimal)").unwrap_err();
    let names: Vec<&str> = err.others.iter().map(|c| c.context.as_str()).collect();
    assert_eq!(
        names,
        vec!["Query", "Create Table", "Column Definitions", "Create Column", "Column Type"]
    );
}

#[test]
fn unknown_keyword_reports_first_alternative() {
    let err = parse_sql_query("drop table t;").unwrap_err();
    assert_eq!(err.span.offset, 0);
    assert_eq!(err.kind, ExpectKind::Tag("select".to_string()));
    assert_eq!(err.src, "drop table t;");
}

#[test]
fn parse_from_raw_reports_consumed_length() {
    let (consumed, _) = SqlQuery::parse_from_raw("select a from b; rest").unwrap();
    assert_eq!(consumed, 17);
}

#[test]
fn format_parse_error_keeps_source_and_offset() {
    let tree = minisql::ParseErrorTree::Base {
        offset: 3,
        kind: ExpectKind::AlphaNumeric,
    };
    let fe = minisql::format_parse_error("abc def", tree);
    assert_eq!(fe.src, "abc def");
    assert_eq!(fe.span.offset, 3);
    assert_eq!(fe.span.length, 0);
    assert!(fe.others.is_empty());
}

#[test]
fn empty_projection_is_rejected() {
    assert!(parse_sql_query("select from t;").is_err());
    assert!(parse_sql_query("select , a from t;").is_err());
}

#[test]
fn unicode_alphanumerics_are_identifier_characters() {
    let expected = SelectStatement {
        table: "t".to_string(),
        fields: vec!["a\u{e9}".to_string()],
    };
    assert_eq!(
        SqlQuery::parse_from_raw("select a\u{e9} from t;").unwrap().1,
        SqlQuery::Select(expected)
    );
}

#[test]
fn diagnostic_offsets_count_bytes() {
    // the two-byte character before the unexpected token shifts its byte
    // offset past its character position
    let err = parse_sql_query("select a\u{e9} bar from t;").unwrap_err();
    assert_eq!(err.span.offset, 11);
    assert_eq!(err.kind, ExpectKind::Tag("from".to_string()));
}

#[test]
fn create_keywords_and_types_any_case() {
    let q = parse_sql_query("CrEaTe TaBlE foo (a InT, b STRING);").unwrap();
    match q {
        SqlQuery::Create(cr) => {
            assert_eq!(cr.table, "foo");
            assert_eq!(cr.columns[0].name, "a");
            assert_eq!(cr.columns[0].type_info, SqlTypeInfo::Int);
            assert_eq!(cr.columns[1].name, "b");
            assert_eq!(cr.columns[1].type_info, SqlTypeInfo::String);
        }
        other => panic!("expected a create statement, got {other:?}"),
    }
}
