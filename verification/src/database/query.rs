//! Query execution decisions shared by both engines, and the assembly of
//! query results from decoded rows.
use vstd::prelude::*;
use vstd::utf8::{decode_utf8, valid_utf8};
use crate::database::types::{
    ErrorResult, QueryExecutionResult, QueryResult, ResultCell, ResultColumnMetadata, ResultRow,
};
use crate::storage::types::hex_lower;
use crate::text::{concat, decimal, decimal_string, owned, push_char, push_decimal};

verus! {

/// Rows returned by a SELECT without its own LIMIT are capped at this many.
pub const AUTO_LIMIT: u64 = 1000;

/// How a query is run.
#[derive(Debug, Clone)]
pub enum QueryPlan {
    /// Nothing but whitespace: not sent.
    Empty,
    /// A read-style statement (the trimmed text), whose rows are returned.
    Select(String),
    /// Any other statement (the trimmed text), whose affected rows are counted.
    Modify(String),
}

/// The result for a query that is empty after trimming.
pub fn empty_query_result() -> (r: QueryExecutionResult)
    ensures
        r matches QueryExecutionResult::Error(e) && e.message@ == "Empty query"@
            && e.execution_time_ms == 0,
{
    QueryExecutionResult::Error(ErrorResult { message: owned("Empty query"), execution_time_ms: 0 })
}

/// The result for a query run while no database is connected.
pub fn not_connected_result() -> (r: QueryExecutionResult)
    ensures
        r matches QueryExecutionResult::Error(e) && e.message@ == "Database not connected"@
            && e.execution_time_ms == 0,
{
    QueryExecutionResult::Error(
        ErrorResult { message: owned("Database not connected"), execution_time_ms: 0 },
    )
}

/// The result for a query that the database rejected.
pub fn query_failed_result(error: &str, execution_time_ms: u128) -> (r: QueryExecutionResult)
    ensures
        r matches QueryExecutionResult::Error(e) && e.message@ == "Query failed: "@ + error@
            && e.execution_time_ms == execution_time_ms,
{
    QueryExecutionResult::Error(
        ErrorResult { message: concat("Query failed: ", error), execution_time_ms },
    )
}

/// The result of a read: with no rows, no columns either; otherwise the
/// columns described by the first row and all rows, each with one cell per
/// column.
pub fn select_result(
    original_query: String,
    columns: Vec<ResultColumnMetadata>,
    rows: Vec<ResultRow>,
    execution_time_ms: u128,
) -> (r: QueryExecutionResult)
    requires
        forall|i: int| 0 <= i < rows@.len() ==> (#[trigger] rows@[i]).cells@.len() == columns@.len(),
    ensures
        r matches QueryExecutionResult::Select(q) && {
            &&& q.original_query == original_query
            &&& q.row_count == rows@.len()
            &&& q.execution_time_ms == execution_time_ms
            &&& q.rows@ == rows@
            &&& (if rows@.len() == 0 {
                q.columns@.len() == 0
            } else {
                q.columns@ == columns@
            })
            &&& forall|i: int|
                0 <= i < q.rows@.len() ==> (#[trigger] q.rows@[i]).cells@.len() == q.columns@.len()
        },
{
    let row_count = rows.len();
    if row_count == 0 {
        QueryExecutionResult::Select(
            QueryResult {
                original_query,
                columns: Vec::new(),
                rows: Vec::new(),
                row_count: 0,
                execution_time_ms,
            },
        )
    } else {
        QueryExecutionResult::Select(
            QueryResult { original_query, columns, rows, row_count, execution_time_ms },
        )
    }
}

/// Execution time and affected rows recorded in the query history.
pub fn execution_metrics(r: &QueryExecutionResult) -> (m: (Option<i64>, Option<i64>))
    ensures
        match r {
            QueryExecutionResult::Modified(x) => m == (
                Some(x.execution_time_ms as i64),
                Some(x.rows_affected as i64),
            ),
            QueryExecutionResult::Select(x) => m == (Some(x.execution_time_ms as i64), None::<i64>),
            QueryExecutionResult::Error(x) => m == (Some(x.execution_time_ms as i64), None::<i64>),
        },
{
    match r {
        QueryExecutionResult::Modified(x) => (
            Some(x.execution_time_ms as i64),
            Some(x.rows_affected as i64),
        ),
        QueryExecutionResult::Select(x) => (Some(x.execution_time_ms as i64), None),
        QueryExecutionResult::Error(x) => (Some(x.execution_time_ms as i64), None),
    }
}

// ---------------------------------------------------------------------------
// Cells
// ---------------------------------------------------------------------------

/// How a cell that does not decode as text is decoded, by its column type.
#[derive(Debug, Clone, Copy, PartialEq, Eq, Structural)]
pub enum CellDecoder {
    Bool,
    Int8,
    Int16,
    Int32,
    Int64,
    UInt8,
    UInt16,
    UInt32,
    UInt64,
    Float32,
    Float64,
    Decimal,
    Json,
    Date,
    Time,
    DateTime,
    Timestamp,
    Bytes,
    /// No decoder: the cell is shown as NULL.
    Unsupported,
}

/// What reading a cell's raw value gave.
#[derive(Debug, Clone, Copy, PartialEq, Eq, Structural)]
pub enum RawCell {
    /// The raw value could not be read.
    Unreadable,
    /// The value is SQL NULL.
    Null,
    /// A value is present.
    Present,
}

/// A cell's displayed value and whether it is NULL. A present value is
/// shown as text when it decodes as text, else as the engine-specific
/// rendering; a value that decodes neither way is shown as NULL.
pub open spec fn cell_display(raw: RawCell, as_text: Option<Seq<char>>, rendered: Option<Seq<char>>) -> (
    Seq<char>,
    bool,
) {
    match raw {
        RawCell::Unreadable => ("ERROR"@, false),
        RawCell::Null => ("NULL"@, true),
        RawCell::Present => match as_text {
            Some(t) => (t, false),
            None => match rendered {
                Some(t) => (t, false),
                None => ("NULL"@, true),
            },
        },
    }
}

/// Whether an integer decoder is signed, and how many bits it holds.
pub open spec fn integer_decoder_bits(d: CellDecoder) -> Option<(bool, nat)> {
    match d {
        CellDecoder::Int8 => Some((true, 8)),
        CellDecoder::Int16 => Some((true, 16)),
        CellDecoder::Int32 => Some((true, 32)),
        CellDecoder::Int64 => Some((true, 64)),
        CellDecoder::UInt8 => Some((false, 8)),
        CellDecoder::UInt16 => Some((false, 16)),
        CellDecoder::UInt32 => Some((false, 32)),
        CellDecoder::UInt64 => Some((false, 64)),
        _ => None,
    }
}

/// A cell is shown as NULL only when it is SQL NULL or when its present
/// value decodes neither as text nor by its column's decoder; a present
/// value that decodes is shown as the decoded text, and an unreadable one
/// as an error.
pub proof fn lemma_decoded_cells_are_not_null(
    raw: RawCell,
    as_text: Option<Seq<char>>,
    rendered: Option<Seq<char>>,
)
    ensures
        raw is Null ==> cell_display(raw, as_text, rendered) == ("NULL"@, true),
        raw is Unreadable ==> !cell_display(raw, as_text, rendered).1,
        raw is Present && as_text is Some ==> cell_display(raw, as_text, rendered) == (
            as_text->0,
            false,
        ),
        raw is Present && as_text is None && rendered is Some ==> cell_display(
            raw,
            as_text,
            rendered,
        ) == (rendered->0, false),
        cell_display(raw, as_text, rendered).1 <==> (raw is Null || (raw is Present
            && as_text is None && rendered is None)),
{
}

pub fn cell_value(raw: RawCell, as_text: Option<String>, rendered: Option<String>) -> (r: (
    String,
    bool,
))
    ensures
        (r.0@, r.1) == cell_display(raw, as_text.deep_view(), rendered.deep_view()),
{
    match raw {
        RawCell::Unreadable => (owned("ERROR"), false),
        RawCell::Null => (owned("NULL"), true),
        RawCell::Present => match as_text {
            Some(t) => (t, false),
            None => match rendered {
                Some(t) => (t, false),
                None => (owned("NULL"), true),
            },
        },
    }
}

/// A result row from its columns' metadata and its cells' values.
pub fn result_row(metadata: &Vec<ResultColumnMetadata>, values: &Vec<(String, bool)>) -> (r: ResultRow)
    requires
        metadata@.len() == values@.len(),
    ensures
        r.cells@.len() == values@.len(),
        forall|i: int|
            0 <= i < values@.len() ==> {
                &&& (#[trigger] r.cells@[i]).value == values@[i].0
                &&& r.cells@[i].is_null == values@[i].1
                &&& r.cells@[i].column_metadata.name@ == metadata@[i].name@
                &&& r.cells@[i].column_metadata.column_type@ == metadata@[i].column_type@
                &&& r.cells@[i].column_metadata.ordinal == metadata@[i].ordinal
                &&& r.cells@[i].column_metadata.table_name.deep_view() == metadata@[
                    i
                ].table_name.deep_view()
                &&& r.cells@[i].column_metadata.is_nullable == metadata@[i].is_nullable
            },
{
    let mut cells: Vec<ResultCell> = Vec::new();
    let n = metadata.len();
    let mut i: usize = 0;
    while i < n
        invariant
            n == metadata@.len(),
            n == values@.len(),
            0 <= i <= n,
            cells@.len() == i,
            forall|j: int|
                0 <= j < i ==> {
                    &&& (#[trigger] cells@[j]).value == values@[j].0
                    &&& cells@[j].is_null == values@[j].1
                    &&& cells@[j].column_metadata.name@ == metadata@[j].name@
                    &&& cells@[j].column_metadata.column_type@ == metadata@[j].column_type@
                    &&& cells@[j].column_metadata.ordinal == metadata@[j].ordinal
                    &&& cells@[j].column_metadata.table_name.deep_view() == metadata@[
                        j
                    ].table_name.deep_view()
                    &&& cells@[j].column_metadata.is_nullable == metadata@[j].is_nullable
                },
        decreases n - i,
    {
        let m = &metadata[i];
        cells.push(
            ResultCell {
                value: values[i].0.clone(),
                is_null: values[i].1,
                column_metadata: ResultColumnMetadata {
                    name: m.name.clone(),
                    column_type: m.column_type.clone(),
                    ordinal: m.ordinal,
                    table_name: match &m.table_name {
                        Some(t) => Some(t.clone()),
                        None => None,
                    },
                    is_nullable: m.is_nullable,
                },
            },
        );
        i = i + 1;
    }
    ResultRow { cells }
}

/// `r` holds one cell per column: each value with its column's metadata.
pub open spec fn row_built(
    r: ResultRow,
    metadata: Seq<ResultColumnMetadata>,
    values: Seq<(String, bool)>,
) -> bool {
    &&& r.cells@.len() == values.len()
    &&& values.len() == metadata.len()
    &&& forall|j: int|
        0 <= j < values.len() ==> {
            &&& (#[trigger] r.cells@[j]).value == values[j].0
            &&& r.cells@[j].is_null == values[j].1
            &&& r.cells@[j].column_metadata.name@ == metadata[j].name@
            &&& r.cells@[j].column_metadata.column_type@ == metadata[j].column_type@
            &&& r.cells@[j].column_metadata.ordinal == metadata[j].ordinal
            &&& r.cells@[j].column_metadata.table_name.deep_view()
                == metadata[j].table_name.deep_view()
            &&& r.cells@[j].column_metadata.is_nullable == metadata[j].is_nullable
        }
}

/// The result of a read from its columns and each row's decoded cells (one
/// per column, as rows of one statement have): with no rows, no columns
/// either; otherwise every row has one cell per column.
pub fn select_rows(
    original_query: String,
    columns: Vec<ResultColumnMetadata>,
    values: Vec<Vec<(String, bool)>>,
    execution_time_ms: u128,
) -> (r: QueryExecutionResult)
    requires
        forall|i: int| 0 <= i < values@.len() ==> (#[trigger] values@[i])@.len() == columns@.len(),
    ensures
        r matches QueryExecutionResult::Select(q) && {
            &&& q.original_query == original_query
            &&& q.execution_time_ms == execution_time_ms
            &&& q.row_count == values@.len()
            &&& q.rows@.len() == values@.len()
            &&& forall|i: int|
                0 <= i < q.rows@.len() ==> (#[trigger] q.rows@[i]).cells@.len() == q.columns@.len()
            &&& (if values@.len() == 0 {
                q.columns@.len() == 0
            } else {
                q.columns@ == columns@
            })
            &&& forall|i: int|
                0 <= i < values@.len() ==> row_built(
                    #[trigger] q.rows@[i],
                    q.columns@,
                    values@[i]@,
                )
        },
{
    let mut rows: Vec<ResultRow> = Vec::new();
    let mut i: usize = 0;
    while i < values.len()
        invariant
            i <= values@.len(),
            rows@.len() == i,
            forall|k: int| 0 <= k < values@.len() ==> (#[trigger] values@[k])@.len() == columns@.len(),
            forall|k: int| 0 <= k < i ==> row_built(#[trigger] rows@[k], columns@, values@[k]@),
        decreases values@.len() - i,
    {
        let row = result_row(&columns, &values[i]);
        assert(row_built(row, columns@, values@[i as int]@));
        rows.push(row);
        i = i + 1;
    }
    select_result(original_query, columns, rows, execution_time_ms)
}

// ---------------------------------------------------------------------------
// Rendering decoded values
// ---------------------------------------------------------------------------

/// Decimal rendering of a signed integer (`Display` for `i64`).
pub open spec fn signed_decimal(v: int) -> Seq<char> {
    if v < 0 {
        seq!['-'] + decimal((-v) as nat)
    } else {
        decimal(v as nat)
    }
}

/// `v.to_string()` for a signed integer.
pub fn render_signed(v: i64) -> (s: String)
    ensures
        s@ == signed_decimal(v as int),
{
    if v < 0 {
        let mut s = String::new();
        push_char(&mut s, '-');
        let mag: u64 = if v == i64::MIN {
            9223372036854775808u64
        } else {
            (-v) as u64
        };
        push_decimal(&mut s, mag as u128);
        s
    } else {
        decimal_string(v as u64)
    }
}

/// `v.to_string()` for an unsigned integer.
pub fn render_unsigned(v: u64) -> (s: String)
    ensures
        s@ == decimal(v as nat),
{
    decimal_string(v)
}

/// `b.to_string()` for a boolean.
pub fn render_bool(b: bool) -> (s: String)
    ensures
        s@ == (if b {
            "true"@
        } else {
            "false"@
        }),
{
    if b {
        owned("true")
    } else {
        owned("false")
    }
}

/// Lowercase hexadecimal text of some bytes, two digits per byte.
pub open spec fn hex_text(b: Seq<u8>) -> Seq<char>
    decreases b.len(),
{
    if b.len() == 0 {
        Seq::empty()
    } else {
        hex_text(b.drop_last()) + seq![
            hex_lower((b.last() / 16) as u128),
            hex_lower((b.last() % 16) as u128),
        ]
    }
}

/// `hex::encode(bytes)`: each byte as two lowercase hexadecimal digits.
#[verifier::external_body]
fn hex_encode(bytes: &[u8]) -> (s: String)
    ensures
        s@ == hex_text(bytes@),
{
    hex::encode(bytes)
}

/// `std::str::from_utf8(bytes)`, owned: the text when the bytes are valid
/// UTF-8.
#[verifier::external_body]
fn utf8_text(bytes: &[u8]) -> (r: Option<String>)
    ensures
        r is Some <==> valid_utf8(bytes@),
        r matches Some(s) ==> s@ == decode_utf8(bytes@),
{
    match std::str::from_utf8(bytes) {
        Ok(s) => Some(s.to_string()),
        Err(_) => None,
    }
}

/// Binary data as text: the text itself when it is valid UTF-8, otherwise
/// `0x` and the bytes in hexadecimal.
pub fn render_bytes(bytes: &[u8]) -> (s: String)
    ensures
        valid_utf8(bytes@) ==> s@ == decode_utf8(bytes@),
        !valid_utf8(bytes@) ==> s@ == "0x"@ + hex_text(bytes@),
{
    match utf8_text(bytes) {
        Some(t) => t,
        None => {
            let h = hex_encode(bytes);
            concat("0x", h.as_str())
        },
    }
}

} // verus!
