//! Running statements: classification, automatic limits, cell decoding
//! and rendering, result assembly, and schema helpers.

use std::collections::HashMap;

use pgui::database::mysql;
use pgui::database::postgres;
use pgui::database::postgres::TableMetadata;
use pgui::database::query::{
    cell_value, empty_query_result, execution_metrics, not_connected_result,
    query_failed_result, render_bool, render_bytes, render_signed, render_unsigned,
    result_row, select_result, select_rows, CellDecoder, QueryPlan, RawCell,
};
use pgui::database::schema::{assemble_schema, contains_string, is_yes, non_empty, table_selected};
use pgui::database::types::{QueryExecutionResult, ResultColumnMetadata};

fn strings(v: &[&str]) -> Vec<String> {
    v.iter().map(|s| s.to_string()).collect()
}

#[test]
fn postgres_reads_are_select_and_with() {
    assert!(postgres::is_select_query("  SELECT 1"));
    assert!(postgres::is_select_query("With x as (select 1) select * from x"));
    assert!(!postgres::is_select_query("SHOW search_path"));
    assert!(!postgres::is_select_query("update t set a = 1"));
}

#[test]
fn mysql_reads_include_show_describe_and_explain() {
    for q in ["SHOW TABLES", "describe t", "DESC t", "EXPLAIN select 1", "select 1", "with a as (select 1) select 1"] {
        assert!(mysql::is_select_query(q), "{}", q);
    }
    assert!(!mysql::is_select_query("DESCX"));
    assert!(!mysql::is_select_query("insert into t values (1)"));
}

#[test]
fn statements_are_planned_after_trimming() {
    assert!(matches!(postgres::plan_query("   \n "), QueryPlan::Empty));
    match postgres::plan_query("  select 1;  ") {
        QueryPlan::Select(t) => assert_eq!(t, "select 1;"),
        _ => panic!("expected a read"),
    }
    match mysql::plan_query(" delete from t ") {
        QueryPlan::Modify(t) => assert_eq!(t, "delete from t"),
        _ => panic!("expected a change"),
    }
}

#[test]
fn reads_without_a_limit_get_one() {
    assert_eq!(postgres::limited_select_sql("select * from t;;"), "select * from t LIMIT 1000");
    assert_eq!(postgres::limited_select_sql("select * from t LIMIT 5"), "select * from t LIMIT 5");
    assert_eq!(mysql::limited_select_sql("SELECT * FROM t;"), "SELECT * FROM t LIMIT 1000");
    assert_eq!(mysql::limited_select_sql("SHOW TABLES"), "SHOW TABLES");
    assert_eq!(mysql::limited_select_sql("select 1 limit 2"), "select 1 limit 2");
}

#[test]
fn empty_and_failed_results() {
    match empty_query_result() {
        QueryExecutionResult::Error(e) => assert_eq!(e.message, "Empty query"),
        _ => panic!(),
    }
    match not_connected_result() {
        QueryExecutionResult::Error(e) => assert_eq!(e.message, "Database not connected"),
        _ => panic!(),
    }
    match query_failed_result("syntax error", 12) {
        QueryExecutionResult::Error(e) => {
            assert_eq!(e.message, "Query failed: syntax error");
            assert_eq!(e.execution_time_ms, 12);
        }
        _ => panic!(),
    }
}

#[test]
fn an_empty_read_has_no_columns() {
    let cols = vec![ResultColumnMetadata {
        name: "a".to_string(),
        column_type: "INT4".to_string(),
        ordinal: 0,
        table_name: None,
        is_nullable: None,
    }];
    match select_result("select a from t".to_string(), cols.clone(), vec![], 3) {
        QueryExecutionResult::Select(q) => {
            assert!(q.columns.is_empty());
            assert_eq!(q.row_count, 0);
        }
        _ => panic!(),
    }
    let row = result_row(&cols, &vec![("1".to_string(), false)]);
    match select_result("q".to_string(), cols, vec![row], 3) {
        QueryExecutionResult::Select(q) => {
            assert_eq!(q.columns.len(), 1);
            assert_eq!(q.rows[0].cells[0].value, "1");
            assert_eq!(q.rows[0].cells[0].column_metadata.column_type, "INT4");
            assert_eq!(q.row_count, 1);
            let (t, rows) = execution_metrics(&QueryExecutionResult::Select(q));
            assert_eq!((t, rows), (Some(3), None));
        }
        _ => panic!(),
    }
}

#[test]
fn cells_are_shown_as_text_or_rendered() {
    assert_eq!(cell_value(RawCell::Unreadable, None, None), ("ERROR".to_string(), false));
    assert_eq!(cell_value(RawCell::Null, Some("x".to_string()), None), ("NULL".to_string(), true));
    assert_eq!(cell_value(RawCell::Present, Some("x".to_string()), Some("y".to_string())), ("x".to_string(), false));
    assert_eq!(cell_value(RawCell::Present, None, Some("42".to_string())), ("42".to_string(), false));
    assert_eq!(cell_value(RawCell::Present, None, None), ("NULL".to_string(), true));
}

#[test]
fn values_render_like_display() {
    assert_eq!(render_signed(-42), "-42");
    assert_eq!(render_signed(i64::MIN), "-9223372036854775808");
    assert_eq!(render_signed(0), "0");
    assert_eq!(render_unsigned(u64::MAX), "18446744073709551615");
    assert_eq!(render_bool(true), "true");
    assert_eq!(render_bytes(b"hello"), "hello");
    assert_eq!(render_bytes(&[0xff, 0x00, 0x1a]), "0xff001a");
}

#[test]
fn decoders_follow_column_types() {
    assert_eq!(postgres::cell_decoder("INT2"), CellDecoder::Int32);
    assert_eq!(postgres::cell_decoder("NUMERIC"), CellDecoder::Decimal);
    assert_eq!(postgres::cell_decoder("TEXT"), CellDecoder::Unsupported);
    assert_eq!(mysql::cell_decoder("TINYINT UNSIGNED"), CellDecoder::UInt8);
    assert_eq!(mysql::cell_decoder("LONGBLOB"), CellDecoder::Bytes);
    assert_eq!(mysql::cell_decoder("VARCHAR"), CellDecoder::Unsupported);
}

#[test]
fn postgres_column_metadata_uses_the_last_relation_entry() {
    let mut table_names = HashMap::new();
    table_names.insert(10, "old".to_string());
    table_names.insert(11, "other".to_string());
    table_names.insert(10, "users".to_string());
    let md = TableMetadata {
        table_names,
        nullability: vec![(10, "id".to_string(), true), (10, "id".to_string(), false)],
    };
    let m = postgres::column_metadata("id", "INT4", 0, Some(10), &md);
    assert_eq!(m.table_name.as_deref(), Some("users"));
    assert_eq!(m.is_nullable, Some(false));
    let n = postgres::column_metadata("x", "TEXT", 1, None, &md);
    assert!(n.table_name.is_none() && n.is_nullable.is_none());
    assert_eq!(postgres::column_metadata("name", "TEXT", 2, Some(10), &md).is_nullable, None);
}

#[test]
fn mysql_schema_helpers() {
    assert!(mysql::is_system_schema("performance_schema"));
    assert!(!mysql::is_system_schema("app"));
    let dbs = mysql::user_databases(&strings(&["mysql", "app", "sys", "shop"]));
    let names: Vec<&str> = dbs.iter().map(|d| d.datname.as_str()).collect();
    assert_eq!(names, vec!["app", "shop"]);
    assert_eq!(mysql::split_column_list("a,b,c"), strings(&["a", "b", "c"]));
    assert!(mysql::constraint_columns(&None).is_empty());
    assert!(mysql::flag_value(Some(1)) && !mysql::flag_value(Some(0)) && !mysql::flag_value(None));
    assert_eq!(mysql::character_length(Some(255), None), Some(255));
    assert_eq!(mysql::ordinal_position(None, None), 0);
    let m = mysql::column_metadata("id", "BIGINT", 3);
    assert_eq!((m.name.as_str(), m.ordinal), ("id", 3));
}

#[test]
fn schema_filters_and_descriptions() {
    assert!(table_selected(&None, "users"));
    let f = Some(strings(&["users"]));
    assert!(table_selected(&f, "users"));
    assert!(!table_selected(&f, "orders"));
    assert!(contains_string(&strings(&["a", "b"]), "b"));
    assert!(is_yes("YES") && !is_yes("yes"));
    assert_eq!(non_empty(Some(String::new())), None);
    assert_eq!(non_empty(Some("d".to_string())).as_deref(), Some("d"));
    let s = assemble_schema(vec![]);
    assert_eq!(s.total_tables, 0);
}

#[test]
fn read_rows_have_one_cell_per_column() {
    let cols = mysql::result_columns(&vec![
        ("id".to_string(), "INT".to_string()),
        ("name".to_string(), "VARCHAR".to_string()),
    ]);
    assert_eq!(cols.len(), 2);
    assert_eq!((cols[0].ordinal, cols[1].ordinal), (0, 1));
    assert_eq!(cols[1].column_type, "VARCHAR");
    assert!(cols[1].table_name.is_none() && cols[1].is_nullable.is_none());
    let values = vec![
        vec![("1".to_string(), false), ("ann".to_string(), false)],
        vec![("2".to_string(), false), ("NULL".to_string(), true)],
    ];
    match select_rows("select * from p".to_string(), cols, values, 7) {
        QueryExecutionResult::Select(q) => {
            assert_eq!(q.original_query, "select * from p");
            assert_eq!(q.row_count, 2);
            assert_eq!(q.columns.len(), 2);
            assert!(q.rows.iter().all(|r| r.cells.len() == 2));
            assert_eq!(q.rows[1].cells[1].value, "NULL");
            assert!(q.rows[1].cells[1].is_null);
            assert_eq!(q.rows[1].cells[1].column_metadata.name, "name");
            assert_eq!(q.execution_time_ms, 7);
        }
        _ => panic!(),
    }
    match select_rows("select 1".to_string(), vec![], vec![], 0) {
        QueryExecutionResult::Select(q) => assert!(q.rows.is_empty() && q.columns.is_empty()),
        _ => panic!(),
    }
}

#[test]
fn postgres_result_columns_count_from_zero() {
    let mut table_names = HashMap::new();
    table_names.insert(5, "public.users".to_string());
    let md = TableMetadata { table_names, nullability: vec![(5, "email".to_string(), true)] };
    let cols = postgres::result_columns(
        &vec![
            ("id".to_string(), "INT4".to_string(), None),
            ("email".to_string(), "TEXT".to_string(), Some(5)),
        ],
        &md,
    );
    assert_eq!(cols.len(), 2);
    assert_eq!((cols[0].ordinal, cols[1].ordinal), (0, 1));
    assert!(cols[0].table_name.is_none());
    assert_eq!(cols[1].table_name.as_deref(), Some("public.users"));
    assert_eq!(cols[1].is_nullable, Some(true));
}
