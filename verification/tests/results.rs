//! The results panel and its table.

use pgui::database::types::{
    ErrorResult, ModifiedResult, QueryExecutionResult, QueryResult, ResultCell,
    ResultColumnMetadata, ResultRow,
};
use pgui::workspace::results::{
    export_file_name, export_notice, move_item, save_notice, EnhancedResultsTableDelegate,
    ExportFormat, ResultsPanel,
};

fn meta(name: &str, ordinal: usize) -> ResultColumnMetadata {
    ResultColumnMetadata {
        name: name.to_string(),
        column_type: "TEXT".to_string(),
        ordinal,
        table_name: None,
        is_nullable: None,
    }
}

fn cell(v: &str, m: &ResultColumnMetadata) -> ResultCell {
    ResultCell { value: v.to_string(), is_null: v == "NULL", column_metadata: m.clone() }
}

fn result() -> QueryResult {
    let a = meta("a", 0);
    let b = meta("b", 1);
    let c = meta("c", 2);
    QueryResult {
        columns: vec![a.clone(), b.clone(), c.clone()],
        rows: vec![
            ResultRow { cells: vec![cell("1", &a), cell("2", &b), cell("3", &c)] },
            ResultRow { cells: vec![cell("x", &a), cell("NULL", &b)] },
        ],
        row_count: 2,
        execution_time_ms: 7,
        original_query: "SELECT * FROM t".to_string(),
    }
}

fn row_values(t: &EnhancedResultsTableDelegate, r: usize) -> Vec<String> {
    t.rows[r].iter().map(|c| c.value.clone()).collect()
}

#[test]
fn a_read_fills_the_table() {
    let mut p = ResultsPanel::new();
    assert_eq!(p.status_text().as_deref(), Some("Execute a query to see results here"));
    p.update_result(QueryExecutionResult::Select(result()));
    assert_eq!(p.table.columns_count(), 3);
    assert_eq!(p.table.rows_count(), 2);
    assert_eq!(p.table.column(1), "b");
    assert_eq!(p.table.cell_text(0, 2), ("3", false));
    assert_eq!(p.table.cell_text(1, 1), ("NULL", true));
    assert_eq!(p.table.cell_text(1, 2), ("--", false));
    assert_eq!(p.table.cell_text(5, 0), ("--", false));
    assert!(p.status_text().is_none());
    assert_eq!(p.export_query(), Some("SELECT * FROM t"));
}

#[test]
fn other_outcomes_are_described() {
    let mut p = ResultsPanel::new();
    p.update_result(QueryExecutionResult::Modified(ModifiedResult { rows_affected: 3, execution_time_ms: 12 }));
    assert_eq!(p.status_text().as_deref(), Some("Query executed successfully. 3 rows affected in 12ms"));
    assert!(p.export_query().is_none());
    assert!(p.suggested_export_name(ExportFormat::Csv, true).is_none());
    p.update_result(QueryExecutionResult::Error(ErrorResult { message: "boom".to_string(), execution_time_ms: 0 }));
    assert_eq!(p.status_text().as_deref(), Some("Error: boom"));
}

#[test]
fn moving_a_column_moves_its_cells() {
    let mut t = EnhancedResultsTableDelegate::new();
    t.update(&result());
    t.move_column(0, 2);
    assert_eq!(t.column_names, vec!["b", "c", "a"]);
    assert_eq!(row_values(&t, 0), vec!["2", "3", "1"]);
    // The short row cannot hold position 2: it stays as it was.
    assert_eq!(row_values(&t, 1), vec!["x", "NULL"]);
    t.move_column(2, 0);
    assert_eq!(t.column_names, vec!["a", "b", "c"]);
    assert_eq!(row_values(&t, 0), vec!["1", "2", "3"]);
}

#[test]
fn moving_an_item_and_back_restores_it() {
    let mut v = vec![1, 2, 3, 4, 5];
    move_item(&mut v, 1, 3);
    assert_eq!(v, vec![1, 3, 4, 2, 5]);
    move_item(&mut v, 3, 1);
    assert_eq!(v, vec![1, 2, 3, 4, 5]);
}

#[test]
fn table_bookkeeping() {
    let mut t = EnhancedResultsTableDelegate::new();
    assert_eq!(t.load_more_threshold(), 150);
    t.visible_rows_changed(10, 40);
    assert_eq!((t.visible_start, t.visible_end), (10, 40));
    assert!(!t.loading);
}

#[test]
fn export_names_and_notices() {
    assert_eq!(export_file_name(ExportFormat::Csv, "20240102_030405", true), "export_20240102_030405.csv");
    assert_eq!(export_file_name(ExportFormat::Json, "T", true), "export_T.ndjson");
    assert_eq!(export_file_name(ExportFormat::Json, "T", false), "export_T.json");
    assert_eq!(export_notice(Ok(42)), (true, "Exported 42 rows".to_string()));
    assert_eq!(export_notice(Err("disk full".to_string())), (false, "Export failed".to_string()));
    assert_eq!(save_notice(true), "File saved successfully.");
    assert_eq!(save_notice(false), "Failed to save file. Please try again.");
    let mut p = ResultsPanel::new();
    p.update_result(QueryExecutionResult::Select(result()));
    let name = p.suggested_export_name(ExportFormat::Json, true).unwrap();
    assert!(name.starts_with("export_") && name.ends_with(".ndjson"));
}
