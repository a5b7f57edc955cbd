//! The results panel: the last query's outcome, the table of its rows, and
//! the names offered for exporting them.
use vstd::prelude::*;
use crate::database::types::{QueryExecutionResult, QueryResult, ResultCell, ResultColumnMetadata};
use crate::text::{concat, decimal, push_decimal, push_str};

verus! {

/// `s` with the item at `from` taken out and put back at `to`.
pub open spec fn moved<T>(s: Seq<T>, from: int, to: int) -> Seq<T> {
    s.remove(from).insert(to, s[from])
}

/// Moving an item and then moving it back restores the sequence.
pub proof fn lemma_move_back<T>(s: Seq<T>, from: int, to: int)
    requires
        0 <= from < s.len(),
        0 <= to < s.len(),
    ensures
        moved(moved(s, from, to), to, from) == s,
{
    let m = moved(s, from, to);
    assert(m.len() == s.len());
    assert(m[to] == s[from]);
    assert(m.remove(to) =~= s.remove(from));
    assert(moved(m, to, from) =~= s);
}

/// Moving an item puts it at its new position and keeps every item: the
/// others keep their order, and no item is lost or duplicated.
pub proof fn lemma_moved_keeps_items<T>(s: Seq<T>, from: int, to: int)
    requires
        0 <= from < s.len(),
        0 <= to < s.len(),
    ensures
        moved(s, from, to).len() == s.len(),
        moved(s, from, to)[to] == s[from],
        moved(s, from, to).remove(to) == s.remove(from),
        moved(s, from, to).to_multiset() == s.to_multiset(),
{
    broadcast use vstd::multiset::group_multiset_axioms;
    let m = moved(s, from, to);
    assert(m.remove(to) =~= s.remove(from));
    vstd::seq_lib::to_multiset_remove(s, from);
    vstd::seq_lib::to_multiset_insert(s.remove(from), to, s[from]);
    s.to_multiset_ensures();
    assert(s.contains(s[from]));
    assert(s.to_multiset().count(s[from]) > 0);
    assert(s.to_multiset().remove(s[from]).insert(s[from]) =~= s.to_multiset());
}

/// Moves the item at `from` to position `to`.
pub fn move_item<T>(v: &mut Vec<T>, from: usize, to: usize)
    requires
        from < old(v)@.len(),
        to < old(v)@.len(),
    ensures
        final(v)@ == moved(old(v)@, from as int, to as int),
{
    let item = v.remove(from);
    v.insert(to, item);
}

fn duplicate_metadata(m: &ResultColumnMetadata) -> (r: ResultColumnMetadata)
    ensures
        r == *m,
{
    ResultColumnMetadata {
        name: m.name.clone(),
        column_type: m.column_type.clone(),
        ordinal: m.ordinal,
        table_name: match &m.table_name {
            Some(t) => Some(t.clone()),
            None => None,
        },
        is_nullable: m.is_nullable,
    }
}

fn duplicate_cells(cells: &Vec<ResultCell>) -> (r: Vec<ResultCell>)
    ensures
        r@ == cells@,
{
    let mut r: Vec<ResultCell> = Vec::new();
    let mut i: usize = 0;
    while i < cells.len()
        invariant
            i <= cells@.len(),
            r@ == cells@.take(i as int),
        decreases cells@.len() - i,
    {
        let c = &cells[i];
        r.push(
            ResultCell {
                value: c.value.clone(),
                is_null: c.is_null,
                column_metadata: duplicate_metadata(&c.column_metadata),
            },
        );
        assert(cells@.take(i + 1) =~= cells@.take(i as int).push(cells@[i as int]));
        i = i + 1;
    }
    assert(cells@.take(i as int) =~= cells@);
    r
}

/// The rows of the results table, with their cells and metadata.
pub struct EnhancedResultsTableDelegate {
    pub column_names: Vec<String>,
    pub rows: Vec<Vec<ResultCell>>,
    pub loading: bool,
    pub visible_start: usize,
    pub visible_end: usize,
}

impl EnhancedResultsTableDelegate {
    /// An empty table.
    pub fn new() -> (t: Self)
        ensures
            t.column_names@.len() == 0,
            t.rows@.len() == 0,
            !t.loading,
            t.visible_start == 0 && t.visible_end == 0,
    {
        EnhancedResultsTableDelegate {
            column_names: Vec::new(),
            rows: Vec::new(),
            loading: false,
            visible_start: 0,
            visible_end: 0,
        }
    }

    /// Shows `result`: one column per result column, one row per result
    /// row.
    pub fn update(&mut self, result: &QueryResult)
        ensures
            final(self).column_names@.len() == result.columns@.len(),
            forall|i: int|
                0 <= i < result.columns@.len() ==> (#[trigger] final(self).column_names@[i])@
                    == result.columns@[i].name@,
            final(self).rows@.len() == result.rows@.len(),
            forall|i: int|
                0 <= i < result.rows@.len() ==> (#[trigger] final(self).rows@[i])@
                    == result.rows@[i].cells@,
            final(self).loading == old(self).loading,
            final(self).visible_start == old(self).visible_start,
            final(self).visible_end == old(self).visible_end,
    {
        let mut names: Vec<String> = Vec::new();
        let mut i: usize = 0;
        while i < result.columns.len()
            invariant
                i <= result.columns@.len(),
                names@.len() == i,
                forall|j: int| 0 <= j < i ==> (#[trigger] names@[j])@ == result.columns@[j].name@,
            decreases result.columns@.len() - i,
        {
            names.push(result.columns[i].name.clone());
            i = i + 1;
        }
        let mut rows: Vec<Vec<ResultCell>> = Vec::new();
        let mut k: usize = 0;
        while k < result.rows.len()
            invariant
                k <= result.rows@.len(),
                rows@.len() == k,
                forall|j: int| 0 <= j < k ==> (#[trigger] rows@[j])@ == result.rows@[j].cells@,
            decreases result.rows@.len() - k,
        {
            rows.push(duplicate_cells(&result.rows[k].cells));
            k = k + 1;
        }
        self.column_names = names;
        self.rows = rows;
    }

    pub fn columns_count(&self) -> (n: usize)
        ensures
            n == self.column_names@.len(),
    {
        self.column_names.len()
    }

    pub fn rows_count(&self) -> (n: usize)
        ensures
            n == self.rows@.len(),
    {
        self.rows.len()
    }

    /// The header of column `col_ix`.
    pub fn column(&self, col_ix: usize) -> (name: &str)
        requires
            col_ix < self.column_names@.len(),
        ensures
            name@ == self.column_names@[col_ix as int]@,
    {
        self.column_names[col_ix].as_str()
    }

    /// What a table cell shows: the value, and whether it is NULL (shown
    /// muted); `"--"` where the row or column does not exist.
    pub fn cell_text(&self, row_ix: usize, col_ix: usize) -> (r: (&str, bool))
        ensures
            (row_ix < self.rows@.len() && col_ix < self.rows@[row_ix as int]@.len()) ==> {
                let c = self.rows@[row_ix as int]@[col_ix as int];
                r.0@ == c.value@ && r.1 == c.is_null
            },
            !(row_ix < self.rows@.len() && col_ix < self.rows@[row_ix as int]@.len()) ==> (r.0@
                == "--"@ && !r.1),
    {
        if row_ix < self.rows.len() {
            let row = &self.rows[row_ix];
            if col_ix < row.len() {
                let cell = &row[col_ix];
                return (cell.value.as_str(), cell.is_null);
            }
        }
        ("--", false)
    }

    /// Drags column `col_ix` to position `to_ix`; in every row long enough
    /// to hold both positions, the cells move along.
    pub fn move_column(&mut self, col_ix: usize, to_ix: usize)
        requires
            col_ix < old(self).column_names@.len(),
            to_ix < old(self).column_names@.len(),
        ensures
            final(self).column_names@ == moved(
                old(self).column_names@,
                col_ix as int,
                to_ix as int,
            ),
            final(self).rows@.len() == old(self).rows@.len(),
            forall|i: int|
                0 <= i < old(self).rows@.len() ==> (#[trigger] final(self).rows@[i])@ == (if col_ix
                    < old(self).rows@[i]@.len() && to_ix < old(self).rows@[i]@.len() {
                    moved(old(self).rows@[i]@, col_ix as int, to_ix as int)
                } else {
                    old(self).rows@[i]@
                }),
            final(self).loading == old(self).loading,
            final(self).visible_start == old(self).visible_start,
            final(self).visible_end == old(self).visible_end,
    {
        move_item(&mut self.column_names, col_ix, to_ix);
        let n = self.rows.len();
        let mut i: usize = 0;
        while i < n
            invariant
                n == old(self).rows@.len(),
                self.rows@.len() == n,
                i <= n,
                forall|j: int|
                    0 <= j < i ==> (#[trigger] self.rows@[j])@ == (if col_ix
                        < old(self).rows@[j]@.len() && to_ix < old(self).rows@[j]@.len() {
                        moved(old(self).rows@[j]@, col_ix as int, to_ix as int)
                    } else {
                        old(self).rows@[j]@
                    }),
                forall|j: int| i <= j < n ==> (#[trigger] self.rows@[j]) == old(self).rows@[j],
                self.column_names@ == moved(old(self).column_names@, col_ix as int, to_ix as int),
                self.loading == old(self).loading,
                self.visible_start == old(self).visible_start,
                self.visible_end == old(self).visible_end,
            decreases n - i,
        {
            let len = self.rows[i].len();
            if col_ix < len && to_ix < len {
                move_item(&mut self.rows[i], col_ix, to_ix);
            }
            i = i + 1;
        }
    }

    /// Rows left to scroll past before more are requested.
    pub fn load_more_threshold(&self) -> (n: usize)
        ensures
            n == 150,
    {
        150
    }

    /// Records which rows are on screen.
    pub fn visible_rows_changed(&mut self, start: usize, end: usize)
        ensures
            final(self).visible_start == start,
            final(self).visible_end == end,
            final(self).column_names == old(self).column_names,
            final(self).rows == old(self).rows,
            final(self).loading == old(self).loading,
    {
        self.visible_start = start;
        self.visible_end = end;
    }
}

/// The file formats results can be exported to.
#[derive(Debug, Clone, Copy, PartialEq, Eq, Structural)]
pub enum ExportFormat {
    Csv,
    Json,
}

/// The extension of an export file. A streamed JSON export writes one
/// object per line (`.ndjson`).
pub open spec fn export_extension(format: ExportFormat, streaming: bool) -> Seq<char> {
    match format {
        ExportFormat::Csv => ".csv"@,
        ExportFormat::Json => if streaming {
            ".ndjson"@
        } else {
            ".json"@
        },
    }
}

/// The file name suggested for an export made at `timestamp`.
pub fn export_file_name(format: ExportFormat, timestamp: &str, streaming: bool) -> (s: String)
    ensures
        s@ == "export_"@ + timestamp@ + export_extension(format, streaming),
{
    let mut s = concat("export_", timestamp);
    let ext = match format {
        ExportFormat::Csv => ".csv",
        ExportFormat::Json => if streaming {
            ".ndjson"
        } else {
            ".json"
        },
    };
    push_str(&mut s, ext);
    s
}

/// The local time as `%Y%m%d_%H%M%S` (`chrono::Local::now().format(..)`).
/// It depends on the clock and the time zone; nothing is stated of it.
#[verifier::external_body]
fn local_timestamp() -> (s: String) {
    chrono::Local::now().format("%Y%m%d_%H%M%S").to_string()
}

/// The notice after a streamed export: how many rows were written, or
/// that it failed.
pub fn export_notice(outcome: Result<u64, String>) -> (n: (bool, String))
    ensures
        match outcome {
            Ok(count) => n.0 && n.1@ == "Exported "@ + decimal(count as nat) + " rows"@,
            Err(_) => !n.0 && n.1@ == "Export failed"@,
        },
{
    match outcome {
        Ok(count) => {
            let mut s = "Exported ".to_owned();
            push_decimal(&mut s, count as u128);
            push_str(&mut s, " rows");
            (true, s)
        },
        Err(_) => (false, "Export failed".to_owned()),
    }
}

/// The notice after saving an in-memory export to a file.
pub fn save_notice(saved: bool) -> (s: &'static str)
    ensures
        saved ==> s@ == "File saved successfully."@,
        !saved ==> s@ == "Failed to save file. Please try again."@,
{
    if saved {
        "File saved successfully."
    } else {
        "Failed to save file. Please try again."
    }
}

/// The results panel: the last outcome and the table showing its rows.
pub struct ResultsPanel {
    pub current_result: Option<QueryExecutionResult>,
    pub table: EnhancedResultsTableDelegate,
}

impl ResultsPanel {
    /// A panel with nothing to show yet.
    pub fn new() -> (p: Self)
        ensures
            p.current_result is None,
            p.table.column_names@.len() == 0,
            p.table.rows@.len() == 0,
    {
        ResultsPanel { current_result: None, table: EnhancedResultsTableDelegate::new() }
    }

    /// Shows a new outcome; a read's rows also go into the table.
    pub fn update_result(&mut self, result: QueryExecutionResult)
        ensures
            final(self).current_result == Some(result),
            match result {
                QueryExecutionResult::Select(q) => {
                    &&& final(self).table.column_names@.len() == q.columns@.len()
                    &&& forall|i: int|
                        0 <= i < q.columns@.len() ==> (#[trigger] final(self).table.column_names@[i])@
                            == q.columns@[i].name@
                    &&& final(self).table.rows@.len() == q.rows@.len()
                    &&& forall|i: int|
                        0 <= i < q.rows@.len() ==> (#[trigger] final(self).table.rows@[i])@
                            == q.rows@[i].cells@
                },
                _ => final(self).table == old(self).table,
            },
    {
        if let QueryExecutionResult::Select(q) = &result {
            self.table.update(q);
        }
        self.current_result = Some(result);
    }

    /// The text shown instead of the table: for a change, how many rows it
    /// affected and how long it took; for an error, its message; before
    /// any query, an invitation. `None` when a read's table is shown.
    pub fn status_text(&self) -> (t: Option<String>)
        ensures
            match self.current_result {
                Some(QueryExecutionResult::Select(_)) => t is None,
                Some(QueryExecutionResult::Modified(m)) => t matches Some(s) && s@
                    == "Query executed successfully. "@ + decimal(m.rows_affected as nat)
                    + " rows affected in "@ + decimal(m.execution_time_ms as nat) + "ms"@,
                Some(QueryExecutionResult::Error(e)) => t matches Some(s) && s@ == "Error: "@
                    + e.message@,
                None => t matches Some(s) && s@ == "Execute a query to see results here"@,
            },
    {
        match &self.current_result {
            Some(QueryExecutionResult::Select(_)) => None,
            Some(QueryExecutionResult::Modified(m)) => {
                let mut s = "Query executed successfully. ".to_owned();
                push_decimal(&mut s, m.rows_affected as u128);
                push_str(&mut s, " rows affected in ");
                push_decimal(&mut s, m.execution_time_ms);
                push_str(&mut s, "ms");
                Some(s)
            },
            Some(QueryExecutionResult::Error(e)) => Some(concat("Error: ", e.message.as_str())),
            None => Some("Execute a query to see results here".to_owned()),
        }
    }

    /// The query a streamed export runs again: that of the read shown.
    pub fn export_query(&self) -> (q: Option<&str>)
        ensures
            match self.current_result {
                Some(QueryExecutionResult::Select(r)) => q matches Some(s) && s@
                    == r.original_query@,
                _ => q is None,
            },
    {
        match &self.current_result {
            Some(QueryExecutionResult::Select(r)) => Some(r.original_query.as_str()),
            _ => None,
        }
    }

    /// The file name suggested for exporting the read shown, stamped with
    /// the local time; `None` when no read is shown.
    pub fn suggested_export_name(&self, format: ExportFormat, streaming: bool) -> (n: Option<
        String,
    >)
        ensures
            (self.current_result matches Some(QueryExecutionResult::Select(_))) <==> n is Some,
            n matches Some(s) ==> exists|t: Seq<char>|
                s@ == "export_"@ + t + export_extension(format, streaming),
    {
        match &self.current_result {
            Some(QueryExecutionResult::Select(_)) => {
                let stamp = local_timestamp();
                let name = export_file_name(format, stamp.as_str(), streaming);
                assert(name@ == "export_"@ + stamp@ + export_extension(format, streaming));
                Some(name)
            },
            _ => None,
        }
    }
}

} // verus!
