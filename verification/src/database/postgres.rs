//! PostgreSQL: statement classification, automatic row limits, cell
//! decoders and result column metadata.
use vstd::prelude::*;
use std::collections::HashMap;
use crate::database::query::{integer_decoder_bits, CellDecoder, QueryPlan};
use crate::database::types::ResultColumnMetadata;
use crate::text::{
    lemma_char_run_back, occurs_at, char_run_back,
    concat, contains, has_prefix, has_substring, owned, starts_with, str_eq, to_lowercase, trim,
    trim_end_char, trim_end_char_seq, trim_seq, trim_start, trim_start_seq, unicode_lowercase,
};

verus! {

/// Statements whose rows are returned: those starting with `select` or
/// `with` (after lowercasing and leading whitespace).
pub open spec fn read_keyword(t: Seq<char>) -> bool {
    has_prefix(t, "select"@) || has_prefix(t, "with"@)
}

/// Statements that begin with `select` or `with` (after leading whitespace
/// and lowercasing) return rows; `insert`, `update`, `delete`, `create`,
/// `drop` and `alter` statements do not.
pub proof fn lemma_reads_are_select_and_with(t: Seq<char>)
    ensures
        has_prefix(t, "select"@) ==> read_keyword(t),
        has_prefix(t, "with"@) ==> read_keyword(t),
        has_prefix(t, "insert"@) || has_prefix(t, "update"@) || has_prefix(t, "delete"@)
            || has_prefix(t, "create"@) || has_prefix(t, "drop"@) || has_prefix(t, "alter"@)
            ==> !read_keyword(t),
{
    reveal_strlit("select");
    reveal_strlit("with");
    reveal_strlit("insert");
    reveal_strlit("update");
    reveal_strlit("delete");
    reveal_strlit("create");
    reveal_strlit("drop");
    reveal_strlit("alter");
    if t.len() > 0 {
        if has_prefix(t, "select"@) {
            assert(t[0] == t.subrange(0, 6)[0]);
        }
        if has_prefix(t, "with"@) {
            assert(t[0] == t.subrange(0, 4)[0]);
        }
        if has_prefix(t, "insert"@) || has_prefix(t, "update"@) || has_prefix(t, "delete"@)
            || has_prefix(t, "create"@) || has_prefix(t, "alter"@) {
            assert(t[0] == t.subrange(0, 6)[0] || t[0] == t.subrange(0, 5)[0]);
        }
        if has_prefix(t, "drop"@) {
            assert(t[0] == t.subrange(0, 4)[0]);
        }
    }
}

/// Whether an already lowercased statement is a read.
pub fn is_select_lowered(lower: &str) -> (b: bool)
    ensures
        b == read_keyword(trim_start_seq(lower@)),
{
    let t = trim_start(lower);
    starts_with(t.as_str(), "select") || starts_with(t.as_str(), "with")
}

/// Whether a statement is a read whose rows are returned.
pub fn is_select_query(sql: &str) -> (b: bool)
    ensures
        b == read_keyword(trim_start_seq(unicode_lowercase(sql@))),
{
    let lower = to_lowercase(sql);
    is_select_lowered(lower.as_str())
}

/// How a statement is run: empty after trimming, a read, or a modification.
pub fn plan_query(sql: &str) -> (p: QueryPlan)
    ensures
        trim_seq(sql@).len() == 0 ==> p is Empty,
        trim_seq(sql@).len() > 0 && read_keyword(
            trim_start_seq(unicode_lowercase(trim_seq(sql@))),
        ) ==> (p matches QueryPlan::Select(t) && t@ == trim_seq(sql@)),
        trim_seq(sql@).len() > 0 && !read_keyword(
            trim_start_seq(unicode_lowercase(trim_seq(sql@))),
        ) ==> (p matches QueryPlan::Modify(t) && t@ == trim_seq(sql@)),
{
    let t = trim(sql);
    if t.as_str().is_empty() {
        QueryPlan::Empty
    } else if is_select_query(t.as_str()) {
        QueryPlan::Select(t)
    } else {
        QueryPlan::Modify(t)
    }
}

/// The statement actually sent for a read, given its lowercased text: one
/// without ` limit ` gets `LIMIT 1000` appended (trailing semicolons
/// removed).
pub open spec fn limited_text(sql: Seq<char>, lower: Seq<char>) -> Seq<char> {
    if !has_substring(lower, " limit "@) {
        trim_end_char_seq(sql, ';') + " LIMIT 1000"@
    } else {
        sql
    }
}

pub fn limited_sql_lowered(sql: &str, lower: &str) -> (r: String)
    ensures
        r@ == limited_text(sql@, lower@),
{
    if !contains(lower, " limit ") {
        let t = trim_end_char(sql, ';');
        concat(t.as_str(), " LIMIT 1000")
    } else {
        owned(sql)
    }
}

/// A read whose lowercased text already holds ` limit ` (however the
/// keyword was cased in the original) is sent exactly as written.
pub proof fn lemma_existing_limit_sent_verbatim(sql: Seq<char>, lower: Seq<char>, i: int)
    requires
        0 <= i,
        i + 7 <= lower.len(),
        lower.subrange(i, i + 7) == " limit "@,
    ensures
        limited_text(sql, lower) == sql,
{
    assert(occurs_at(lower, " limit "@, i));
}

/// A read whose lowercased text holds no ` limit ` is sent as its text
/// without trailing semicolons, followed by a single ` LIMIT 1000`.
pub proof fn lemma_missing_limit_appended(sql: Seq<char>, lower: Seq<char>)
    requires
        forall|i: int| 0 <= i && i + 7 <= lower.len() ==> #[trigger] lower.subrange(i, i + 7) != " limit "@,
    ensures
        exists|k: int|
            {
                &&& 0 <= k <= sql.len()
                &&& limited_text(sql, lower) == sql.subrange(0, k) + " LIMIT 1000"@
                &&& forall|m: int| k <= m < sql.len() ==> sql[m] == ';'
                &&& (k == 0 || sql[k - 1] != ';')
            },
{
    reveal_strlit(" limit ");
    assert forall|i: int| !occurs_at(lower, " limit "@, i) by {
        if 0 <= i && i + 7 <= lower.len() {
            assert(lower.subrange(i, i + 7) != " limit "@);
        }
    }
    lemma_char_run_back(sql, ';', sql.len() as int);
    let k = char_run_back(sql, ';', sql.len() as int);
    assert(limited_text(sql, lower) == sql.subrange(0, k) + " LIMIT 1000"@);
}

/// The statement sent for a read.
pub fn limited_select_sql(sql: &str) -> (r: String)
    ensures
        r@ == limited_text(sql@, unicode_lowercase(sql@)),
{
    let lower = to_lowercase(sql);
    limited_sql_lowered(sql, lower.as_str())
}

/// Decoder for a PostgreSQL column type name.
pub open spec fn decoder_for(t: Seq<char>) -> CellDecoder {
    if t == "BOOL"@ {
        CellDecoder::Bool
    } else if t == "INT2"@ || t == "INT4"@ {
        CellDecoder::Int32
    } else if t == "INT8"@ {
        CellDecoder::Int64
    } else if t == "FLOAT4"@ {
        CellDecoder::Float32
    } else if t == "FLOAT8"@ {
        CellDecoder::Float64
    } else if t == "NUMERIC"@ {
        CellDecoder::Decimal
    } else {
        CellDecoder::Unsupported
    }
}

/// PostgreSQL's integer column types: signedness and bits.
pub open spec fn integer_column_bits(t: Seq<char>) -> Option<(bool, nat)> {
    if t == "INT2"@ {
        Some((true, 16))
    } else if t == "INT4"@ {
        Some((true, 32))
    } else if t == "INT8"@ {
        Some((true, 64))
    } else {
        None
    }
}

/// Every integer column is read by a signed integer decoder wide enough
/// for all of its values.
pub proof fn lemma_integer_columns_decode_wide_enough(t: Seq<char>)
    requires
        integer_column_bits(t) is Some,
    ensures
        integer_decoder_bits(decoder_for(t)) matches Some((signed, bits)) && signed
            && bits >= (integer_column_bits(t)->0).1,
{
    reveal_strlit("INT2");
    reveal_strlit("INT4");
    reveal_strlit("INT8");
    reveal_strlit("BOOL");
    assert("INT8"@[0] != "BOOL"@[0] && "INT8"@[3] != "INT2"@[3] && "INT8"@[3] != "INT4"@[3]);
    assert("INT2"@[0] != "BOOL"@[0] && "INT4"@[0] != "BOOL"@[0] && "INT4"@[3] != "INT2"@[3]);
}

/// Booleans, floating-point and numeric columns are read by the decoder of
/// their kind; text columns need no decoder, as they are read as text
/// first.
pub proof fn lemma_column_kinds_decoded(t: Seq<char>)
    ensures
        t == "BOOL"@ ==> decoder_for(t) == CellDecoder::Bool,
        t == "FLOAT4"@ ==> decoder_for(t) == CellDecoder::Float32,
        t == "FLOAT8"@ ==> decoder_for(t) == CellDecoder::Float64,
        t == "NUMERIC"@ ==> decoder_for(t) == CellDecoder::Decimal,
        t == "TEXT"@ || t == "VARCHAR"@ ==> decoder_for(t) == CellDecoder::Unsupported,
{
    reveal_strlit("BOOL");
    reveal_strlit("INT2");
    reveal_strlit("INT4");
    reveal_strlit("INT8");
    reveal_strlit("FLOAT4");
    reveal_strlit("FLOAT8");
    reveal_strlit("NUMERIC");
    reveal_strlit("TEXT");
    reveal_strlit("VARCHAR");
    assert("BOOL"@.len() == 4);
    assert("INT2"@.len() == 4);
    assert("INT4"@.len() == 4);
    assert("INT8"@.len() == 4);
    assert("FLOAT4"@.len() == 6);
    assert("FLOAT8"@.len() == 6);
    assert("NUMERIC"@.len() == 7);
    assert("TEXT"@.len() == 4);
    assert("VARCHAR"@.len() == 7);
    assert("BOOL"@[0] != "INT2"@[0]);
    assert("BOOL"@[0] != "INT4"@[0]);
    assert("BOOL"@[0] != "INT8"@[0]);
    assert("BOOL"@[0] != "TEXT"@[0]);
    assert("INT2"@[3] != "INT4"@[3]);
    assert("INT2"@[3] != "INT8"@[3]);
    assert("INT2"@[0] != "TEXT"@[0]);
    assert("INT4"@[3] != "INT8"@[3]);
    assert("INT4"@[0] != "TEXT"@[0]);
    assert("INT8"@[0] != "TEXT"@[0]);
    assert("FLOAT4"@[5] != "FLOAT8"@[5]);
    assert("NUMERIC"@[0] != "VARCHAR"@[0]);
}

pub fn cell_decoder(column_type: &str) -> (d: CellDecoder)
    ensures
        d == decoder_for(column_type@),
{
    if str_eq(column_type, "BOOL") {
        CellDecoder::Bool
    } else if str_eq(column_type, "INT2") || str_eq(column_type, "INT4") {
        CellDecoder::Int32
    } else if str_eq(column_type, "INT8") {
        CellDecoder::Int64
    } else if str_eq(column_type, "FLOAT4") {
        CellDecoder::Float32
    } else if str_eq(column_type, "FLOAT8") {
        CellDecoder::Float64
    } else if str_eq(column_type, "NUMERIC") {
        CellDecoder::Decimal
    } else {
        CellDecoder::Unsupported
    }
}

/// Relation metadata of a result: table names by relation id, and column
/// nullability by relation id and column name. For nullability, later
/// entries override earlier ones, as inserts into a map do.
#[derive(Debug, Clone)]
pub struct TableMetadata {
    pub table_names: HashMap<u32, String>,
    pub nullability: Vec<(u32, String, bool)>,
}

/// The table name recorded for a relation.
pub open spec fn table_name_of(m: Map<u32, String>, oid: u32) -> Option<Seq<char>> {
    if m.contains_key(oid) {
        Some(m[oid]@)
    } else {
        None
    }
}

/// The nullability recorded last for a column of a relation.
pub open spec fn nullable_of(e: Seq<(u32, String, bool)>, oid: u32, name: Seq<char>) -> Option<bool>
    decreases e.len(),
{
    if e.len() == 0 {
        None
    } else if e.last().0 == oid && e.last().1@ == name {
        Some(e.last().2)
    } else {
        nullable_of(e.drop_last(), oid, name)
    }
}

/// Nullability is looked up by relation and column name, and the entry
/// recorded last for them wins: an entry for another column leaves it as
/// it was, and with no entry at all it is unknown.
pub proof fn lemma_nullable_last_entry_wins(
    e: Seq<(u32, String, bool)>,
    entry: (u32, String, bool),
    oid: u32,
    name: Seq<char>,
)
    ensures
        entry.0 == oid && entry.1@ == name ==> nullable_of(e.push(entry), oid, name) == Some(
            entry.2,
        ),
        !(entry.0 == oid && entry.1@ == name) ==> nullable_of(e.push(entry), oid, name)
            == nullable_of(e, oid, name),
        nullable_of(Seq::empty(), oid, name) is None,
{
    assert(e.push(entry).drop_last() =~= e);
}

fn lookup_table_name(m: &HashMap<u32, String>, oid: u32) -> (r: Option<String>)
    ensures
        r.deep_view() == table_name_of(m@, oid),
{
    match m.get(&oid) {
        Some(t) => Some(t.clone()),
        None => None,
    }
}

fn lookup_nullable(e: &Vec<(u32, String, bool)>, oid: u32, name: &str) -> (r: Option<bool>)
    ensures
        r == nullable_of(e@, oid, name@),
{
    let mut found: Option<bool> = None;
    let mut i: usize = 0;
    while i < e.len()
        invariant
            0 <= i <= e@.len(),
            found == nullable_of(e@.take(i as int), oid, name@),
        decreases e@.len() - i,
    {
        assert(e@.take(i + 1).drop_last() =~= e@.take(i as int));
        if e[i].0 == oid && str_eq(e[i].1.as_str(), name) {
            found = Some(e[i].2);
        }
        i = i + 1;
    }
    assert(e@.take(e@.len() as int) =~= e@);
    found
}

/// Metadata of a result column: its table name and nullability come from
/// the relation it was read from, when it has one.
pub fn column_metadata(
    name: &str,
    column_type: &str,
    ordinal: usize,
    relation_id: Option<u32>,
    metadata: &TableMetadata,
) -> (m: ResultColumnMetadata)
    ensures
        m.name@ == name@,
        m.column_type@ == column_type@,
        m.ordinal == ordinal,
        m.table_name.deep_view() == (match relation_id {
            Some(oid) => table_name_of(metadata.table_names@, oid),
            None => None,
        }),
        m.is_nullable == (match relation_id {
            Some(oid) => nullable_of(metadata.nullability@, oid, name@),
            None => None,
        }),
{
    let (table_name, is_nullable) = match relation_id {
        Some(oid) => (
            lookup_table_name(&metadata.table_names, oid),
            lookup_nullable(&metadata.nullability, oid, name),
        ),
        None => (None, None),
    };
    ResultColumnMetadata {
        name: owned(name),
        column_type: owned(column_type),
        ordinal,
        table_name,
        is_nullable,
    }
}

/// The metadata of a result's columns, given each column's name, type and
/// source relation in order: ordinals count from 0, and table names and
/// nullability come from the relations' metadata.
pub fn result_columns(cols: &Vec<(String, String, Option<u32>)>, metadata: &TableMetadata) -> (v:
    Vec<ResultColumnMetadata>)
    ensures
        v@.len() == cols@.len(),
        forall|i: int|
            0 <= i < cols@.len() ==> {
                &&& (#[trigger] v@[i]).name@ == cols@[i].0@
                &&& v@[i].column_type@ == cols@[i].1@
                &&& v@[i].ordinal == i
                &&& v@[i].table_name.deep_view() == (match cols@[i].2 {
                    Some(oid) => table_name_of(metadata.table_names@, oid),
                    None => None,
                })
                &&& v@[i].is_nullable == (match cols@[i].2 {
                    Some(oid) => nullable_of(metadata.nullability@, oid, cols@[i].0@),
                    None => None,
                })
            },
{
    let mut v: Vec<ResultColumnMetadata> = Vec::new();
    let mut i: usize = 0;
    while i < cols.len()
        invariant
            i <= cols@.len(),
            v@.len() == i,
            forall|k: int|
                0 <= k < i ==> {
                    &&& (#[trigger] v@[k]).name@ == cols@[k].0@
                    &&& v@[k].column_type@ == cols@[k].1@
                    &&& v@[k].ordinal == k
                    &&& v@[k].table_name.deep_view() == (match cols@[k].2 {
                        Some(oid) => table_name_of(metadata.table_names@, oid),
                        None => None,
                    })
                    &&& v@[k].is_nullable == (match cols@[k].2 {
                        Some(oid) => nullable_of(metadata.nullability@, oid, cols@[k].0@),
                        None => None,
                    })
                },
        decreases cols@.len() - i,
    {
        let c = &cols[i];
        v.push(column_metadata(c.0.as_str(), c.1.as_str(), i, c.2, metadata));
        i = i + 1;
    }
    v
}

} // verus!
