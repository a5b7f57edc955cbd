//! MySQL: statement classification, automatic row limits, cell decoders,
//! result column metadata and the normalization of `information_schema`
//! values.
//!
//! MySQL exposes no per-column relation ids for ad-hoc queries, so result
//! metadata carries only name, type and ordinal.
use vstd::prelude::*;
use crate::database::query::{integer_decoder_bits, CellDecoder, QueryPlan};
use crate::database::types::{DatabaseInfo, ResultColumnMetadata};
use crate::text::{
    lemma_char_run_back, occurs_at, char_run_back,
    concat, contains, has_prefix, has_substring, owned, split_char, split_on, starts_with, str_eq,
    strings_view, to_lowercase, trim, trim_end_char, trim_end_char_seq, trim_seq, trim_start,
    trim_start_seq, unicode_lowercase,
};

verus! {

/// Statements whose rows are returned (after lowercasing and leading
/// whitespace): `select`, `with`, `show`, `describe`, `desc `, `explain`.
pub open spec fn read_keyword(t: Seq<char>) -> bool {
    ||| has_prefix(t, "select"@)
    ||| has_prefix(t, "with"@)
    ||| has_prefix(t, "show"@)
    ||| has_prefix(t, "describe"@)
    ||| has_prefix(t, "desc "@)
    ||| has_prefix(t, "explain"@)
}

/// Reads that accept an automatic LIMIT: `select` and `with`.
pub open spec fn limitable_keyword(t: Seq<char>) -> bool {
    has_prefix(t, "select"@) || has_prefix(t, "with"@)
}

/// Statements that begin with `select`, `with`, `show`, `describe`,
/// `desc ` or `explain` (after leading whitespace and lowercasing) return
/// rows; `insert`, `update`, `delete`, `create`, `drop` and `alter`
/// statements do not. Only `select` and `with` reads get an automatic
/// limit.
pub proof fn lemma_reads_by_leading_keyword(t: Seq<char>)
    ensures
        has_prefix(t, "select"@) ==> read_keyword(t),
        has_prefix(t, "with"@) ==> read_keyword(t),
        has_prefix(t, "show"@) ==> read_keyword(t),
        has_prefix(t, "describe"@) ==> read_keyword(t),
        has_prefix(t, "desc "@) ==> read_keyword(t),
        has_prefix(t, "explain"@) ==> read_keyword(t),
        has_prefix(t, "insert"@) || has_prefix(t, "update"@) || has_prefix(t, "delete"@)
            || has_prefix(t, "create"@) || has_prefix(t, "drop"@) || has_prefix(t, "alter"@)
            ==> !read_keyword(t),
        has_prefix(t, "show"@) || has_prefix(t, "describe"@) || has_prefix(t, "desc "@)
            || has_prefix(t, "explain"@) ==> !limitable_keyword(t),
{
    reveal_strlit("select");
    reveal_strlit("with");
    reveal_strlit("show");
    reveal_strlit("describe");
    reveal_strlit("desc ");
    reveal_strlit("explain");
    reveal_strlit("insert");
    reveal_strlit("update");
    reveal_strlit("delete");
    reveal_strlit("create");
    reveal_strlit("drop");
    reveal_strlit("alter");
    if has_prefix(t, "select"@) {
        assert(t[0] == t.subrange(0, 6)[0] && t[1] == t.subrange(0, 6)[1] && t[2] == t.subrange(0, 6)[2]);
    }
    if has_prefix(t, "with"@) {
        assert(t[0] == t.subrange(0, 4)[0] && t[1] == t.subrange(0, 4)[1] && t[2] == t.subrange(0, 4)[2]);
    }
    if has_prefix(t, "show"@) {
        assert(t[0] == t.subrange(0, 4)[0] && t[1] == t.subrange(0, 4)[1] && t[2] == t.subrange(0, 4)[2]);
    }
    if has_prefix(t, "describe"@) {
        assert(t[0] == t.subrange(0, 8)[0] && t[1] == t.subrange(0, 8)[1] && t[2] == t.subrange(0, 8)[2]);
    }
    if has_prefix(t, "desc "@) {
        assert(t[0] == t.subrange(0, 5)[0] && t[1] == t.subrange(0, 5)[1] && t[2] == t.subrange(0, 5)[2]);
    }
    if has_prefix(t, "explain"@) {
        assert(t[0] == t.subrange(0, 7)[0] && t[1] == t.subrange(0, 7)[1] && t[2] == t.subrange(0, 7)[2]);
    }
    if has_prefix(t, "insert"@) {
        assert(t[0] == t.subrange(0, 6)[0] && t[1] == t.subrange(0, 6)[1] && t[2] == t.subrange(0, 6)[2]);
    }
    if has_prefix(t, "update"@) {
        assert(t[0] == t.subrange(0, 6)[0] && t[1] == t.subrange(0, 6)[1] && t[2] == t.subrange(0, 6)[2]);
    }
    if has_prefix(t, "delete"@) {
        assert(t[0] == t.subrange(0, 6)[0] && t[1] == t.subrange(0, 6)[1] && t[2] == t.subrange(0, 6)[2]);
    }
    if has_prefix(t, "create"@) {
        assert(t[0] == t.subrange(0, 6)[0] && t[1] == t.subrange(0, 6)[1] && t[2] == t.subrange(0, 6)[2]);
    }
    if has_prefix(t, "drop"@) {
        assert(t[0] == t.subrange(0, 4)[0] && t[1] == t.subrange(0, 4)[1] && t[2] == t.subrange(0, 4)[2]);
    }
    if has_prefix(t, "alter"@) {
        assert(t[0] == t.subrange(0, 5)[0] && t[1] == t.subrange(0, 5)[1] && t[2] == t.subrange(0, 5)[2]);
    }
}

/// Whether an already lowercased statement is a read.
pub fn is_select_lowered(lower: &str) -> (b: bool)
    ensures
        b == read_keyword(trim_start_seq(lower@)),
{
    let t = trim_start(lower);
    let s = t.as_str();
    starts_with(s, "select") || starts_with(s, "with") || starts_with(s, "show") || starts_with(
        s,
        "describe",
    ) || starts_with(s, "desc ") || starts_with(s, "explain")
}

/// Whether a statement is a read whose rows are returned.
pub fn is_select_query(sql: &str) -> (b: bool)
    ensures
        b == read_keyword(trim_start_seq(unicode_lowercase(sql@))),
{
    let lower = to_lowercase(sql);
    is_select_lowered(lower.as_str())
}

/// How a statement is run: empty after trimming, a read, or a modification.
pub fn plan_query(sql: &str) -> (p: QueryPlan)
    ensures
        trim_seq(sql@).len() == 0 ==> p is Empty,
        trim_seq(sql@).len() > 0 && read_keyword(
            trim_start_seq(unicode_lowercase(trim_seq(sql@))),
        ) ==> (p matches QueryPlan::Select(t) && t@ == trim_seq(sql@)),
        trim_seq(sql@).len() > 0 && !read_keyword(
            trim_start_seq(unicode_lowercase(trim_seq(sql@))),
        ) ==> (p matches QueryPlan::Modify(t) && t@ == trim_seq(sql@)),
{
    let t = trim(sql);
    if t.as_str().is_empty() {
        QueryPlan::Empty
    } else if is_select_query(t.as_str()) {
        QueryPlan::Select(t)
    } else {
        QueryPlan::Modify(t)
    }
}

/// The statement actually sent for a read, given its lowercased text: a
/// `select`/`with` without ` limit ` gets `LIMIT 1000` appended (trailing
/// semicolons removed); other reads run verbatim.
pub open spec fn limited_text(sql: Seq<char>, lower: Seq<char>) -> Seq<char> {
    if limitable_keyword(trim_start_seq(lower)) && !has_substring(lower, " limit "@) {
        trim_end_char_seq(sql, ';') + " LIMIT 1000"@
    } else {
        sql
    }
}

pub fn limited_sql_lowered(sql: &str, lower: &str) -> (r: String)
    ensures
        r@ == limited_text(sql@, lower@),
{
    let t = trim_start(lower);
    let supports_auto_limit = starts_with(t.as_str(), "select") || starts_with(t.as_str(), "with");
    if supports_auto_limit && !contains(lower, " limit ") {
        let s = trim_end_char(sql, ';');
        concat(s.as_str(), " LIMIT 1000")
    } else {
        owned(sql)
    }
}

/// A read whose lowercased text already holds ` limit ` (however the
/// keyword was cased in the original) is sent exactly as written.
pub proof fn lemma_existing_limit_sent_verbatim(sql: Seq<char>, lower: Seq<char>, i: int)
    requires
        0 <= i,
        i + 7 <= lower.len(),
        lower.subrange(i, i + 7) == " limit "@,
    ensures
        limited_text(sql, lower) == sql,
{
    assert(occurs_at(lower, " limit "@, i));
}

/// A `select` or `with` whose lowercased text holds no ` limit ` is sent as its text
/// without trailing semicolons, followed by a single ` LIMIT 1000`.
pub proof fn lemma_missing_limit_appended(sql: Seq<char>, lower: Seq<char>)
    requires
        has_prefix(trim_start_seq(lower), "select"@) || has_prefix(trim_start_seq(lower), "with"@),
        forall|i: int| 0 <= i && i + 7 <= lower.len() ==> #[trigger] lower.subrange(i, i + 7) != " limit "@,
    ensures
        exists|k: int|
            {
                &&& 0 <= k <= sql.len()
                &&& limited_text(sql, lower) == sql.subrange(0, k) + " LIMIT 1000"@
                &&& forall|m: int| k <= m < sql.len() ==> sql[m] == ';'
                &&& (k == 0 || sql[k - 1] != ';')
            },
{
    reveal_strlit(" limit ");
    assert forall|i: int| !occurs_at(lower, " limit "@, i) by {
        if 0 <= i && i + 7 <= lower.len() {
            assert(lower.subrange(i, i + 7) != " limit "@);
        }
    }
    lemma_char_run_back(sql, ';', sql.len() as int);
    let k = char_run_back(sql, ';', sql.len() as int);
    assert(limited_text(sql, lower) == sql.subrange(0, k) + " LIMIT 1000"@);
}

/// The statement sent for a read.
pub fn limited_select_sql(sql: &str) -> (r: String)
    ensures
        r@ == limited_text(sql@, unicode_lowercase(sql@)),
{
    let lower = to_lowercase(sql);
    limited_sql_lowered(sql, lower.as_str())
}

/// Decoder for a MySQL column type name.
pub open spec fn decoder_for(t: Seq<char>) -> CellDecoder {
    if t == "BOOLEAN"@ || t == "TINYINT"@ {
        CellDecoder::Int8
    } else if t == "SMALLINT"@ {
        CellDecoder::Int16
    } else if t == "MEDIUMINT"@ || t == "INT"@ {
        CellDecoder::Int32
    } else if t == "BIGINT"@ {
        CellDecoder::Int64
    } else if t == "TINYINT UNSIGNED"@ {
        CellDecoder::UInt8
    } else if t == "SMALLINT UNSIGNED"@ {
        CellDecoder::UInt16
    } else if t == "MEDIUMINT UNSIGNED"@ || t == "INT UNSIGNED"@ {
        CellDecoder::UInt32
    } else if t == "BIGINT UNSIGNED"@ {
        CellDecoder::UInt64
    } else if t == "FLOAT"@ {
        CellDecoder::Float32
    } else if t == "DOUBLE"@ {
        CellDecoder::Float64
    } else if t == "DECIMAL"@ {
        CellDecoder::Decimal
    } else if t == "JSON"@ {
        CellDecoder::Json
    } else if t == "DATE"@ {
        CellDecoder::Date
    } else if t == "TIME"@ {
        CellDecoder::Time
    } else if t == "DATETIME"@ {
        CellDecoder::DateTime
    } else if t == "TIMESTAMP"@ {
        CellDecoder::Timestamp
    } else if t == "BLOB"@ || t == "TINYBLOB"@ || t == "MEDIUMBLOB"@ || t == "LONGBLOB"@ || t
        == "BINARY"@ || t == "VARBINARY"@ {
        CellDecoder::Bytes
    } else {
        CellDecoder::Unsupported
    }
}

/// MySQL's integer column types: signedness and bits.
pub open spec fn integer_column_bits(t: Seq<char>) -> Option<(bool, nat)> {
    if t == "TINYINT"@ {
        Some((true, 8))
    } else if t == "SMALLINT"@ {
        Some((true, 16))
    } else if t == "MEDIUMINT"@ {
        Some((true, 24))
    } else if t == "INT"@ {
        Some((true, 32))
    } else if t == "BIGINT"@ {
        Some((true, 64))
    } else if t == "TINYINT UNSIGNED"@ {
        Some((false, 8))
    } else if t == "SMALLINT UNSIGNED"@ {
        Some((false, 16))
    } else if t == "MEDIUMINT UNSIGNED"@ {
        Some((false, 24))
    } else if t == "INT UNSIGNED"@ {
        Some((false, 32))
    } else if t == "BIGINT UNSIGNED"@ {
        Some((false, 64))
    } else {
        None
    }
}

/// Every integer column is read by an integer decoder of the same
/// signedness, wide enough for all of its values.
pub proof fn lemma_integer_columns_decode_wide_enough(t: Seq<char>)
    requires
        integer_column_bits(t) is Some,
    ensures
        integer_decoder_bits(decoder_for(t)) matches Some((signed, bits)) && signed
            == (integer_column_bits(t)->0).0 && bits >= (integer_column_bits(t)->0).1,
{
    reveal_strlit("BOOLEAN");
    reveal_strlit("TINYINT");
    reveal_strlit("SMALLINT");
    reveal_strlit("MEDIUMINT");
    reveal_strlit("INT");
    reveal_strlit("BIGINT");
    reveal_strlit("TINYINT UNSIGNED");
    reveal_strlit("SMALLINT UNSIGNED");
    reveal_strlit("MEDIUMINT UNSIGNED");
    reveal_strlit("INT UNSIGNED");
    reveal_strlit("BIGINT UNSIGNED");
    assert("BOOLEAN"@[0] != "TINYINT"@[0]);
    assert("BOOLEAN"@.len() == 7 && "TINYINT"@.len() == 7 && "SMALLINT"@.len() == 8
        && "MEDIUMINT"@.len() == 9 && "INT"@.len() == 3 && "BIGINT"@.len() == 6
        && "TINYINT UNSIGNED"@.len() == 16 && "SMALLINT UNSIGNED"@.len() == 17
        && "MEDIUMINT UNSIGNED"@.len() == 18 && "INT UNSIGNED"@.len() == 12
        && "BIGINT UNSIGNED"@.len() == 15);
}

/// Booleans are read as 8-bit integers; floating-point, decimal, JSON,
/// date and time columns by the decoder of their kind; and every binary
/// column type as bytes. Text columns need no decoder: they are read as
/// text first.
pub proof fn lemma_column_kinds_decoded(t: Seq<char>)
    ensures
        t == "BOOLEAN"@ ==> decoder_for(t) == CellDecoder::Int8,
        t == "FLOAT"@ ==> decoder_for(t) == CellDecoder::Float32,
        t == "DOUBLE"@ ==> decoder_for(t) == CellDecoder::Float64,
        t == "DECIMAL"@ ==> decoder_for(t) == CellDecoder::Decimal,
        t == "JSON"@ ==> decoder_for(t) == CellDecoder::Json,
        t == "DATE"@ ==> decoder_for(t) == CellDecoder::Date,
        t == "TIME"@ ==> decoder_for(t) == CellDecoder::Time,
        t == "DATETIME"@ ==> decoder_for(t) == CellDecoder::DateTime,
        t == "TIMESTAMP"@ ==> decoder_for(t) == CellDecoder::Timestamp,
        t == "BLOB"@ ==> decoder_for(t) == CellDecoder::Bytes,
        t == "TINYBLOB"@ ==> decoder_for(t) == CellDecoder::Bytes,
        t == "MEDIUMBLOB"@ ==> decoder_for(t) == CellDecoder::Bytes,
        t == "LONGBLOB"@ ==> decoder_for(t) == CellDecoder::Bytes,
        t == "BINARY"@ ==> decoder_for(t) == CellDecoder::Bytes,
        t == "VARBINARY"@ ==> decoder_for(t) == CellDecoder::Bytes,
        t == "VARCHAR"@ || t == "TEXT"@ || t == "CHAR"@ ==> decoder_for(t) == CellDecoder::Unsupported,
{
    reveal_strlit("BOOLEAN");
    reveal_strlit("TINYINT");
    reveal_strlit("SMALLINT");
    reveal_strlit("MEDIUMINT");
    reveal_strlit("INT");
    reveal_strlit("BIGINT");
    reveal_strlit("TINYINT UNSIGNED");
    reveal_strlit("SMALLINT UNSIGNED");
    reveal_strlit("MEDIUMINT UNSIGNED");
    reveal_strlit("INT UNSIGNED");
    reveal_strlit("BIGINT UNSIGNED");
    reveal_strlit("FLOAT");
    reveal_strlit("DOUBLE");
    reveal_strlit("DECIMAL");
    reveal_strlit("JSON");
    reveal_strlit("DATE");
    reveal_strlit("TIME");
    reveal_strlit("DATETIME");
    reveal_strlit("TIMESTAMP");
    reveal_strlit("BLOB");
    reveal_strlit("TINYBLOB");
    reveal_strlit("MEDIUMBLOB");
    reveal_strlit("LONGBLOB");
    reveal_strlit("BINARY");
    reveal_strlit("VARBINARY");
    reveal_strlit("VARCHAR");
    reveal_strlit("TEXT");
    reveal_strlit("CHAR");
    assert("BOOLEAN"@.len() == 7);
    assert("TINYINT"@.len() == 7);
    assert("SMALLINT"@.len() == 8);
    assert("MEDIUMINT"@.len() == 9);
    assert("INT"@.len() == 3);
    assert("BIGINT"@.len() == 6);
    assert("TINYINT UNSIGNED"@.len() == 16);
    assert("SMALLINT UNSIGNED"@.len() == 17);
    assert("MEDIUMINT UNSIGNED"@.len() == 18);
    assert("INT UNSIGNED"@.len() == 12);
    assert("BIGINT UNSIGNED"@.len() == 15);
    assert("FLOAT"@.len() == 5);
    assert("DOUBLE"@.len() == 6);
    assert("DECIMAL"@.len() == 7);
    assert("JSON"@.len() == 4);
    assert("DATE"@.len() == 4);
    assert("TIME"@.len() == 4);
    assert("DATETIME"@.len() == 8);
    assert("TIMESTAMP"@.len() == 9);
    assert("BLOB"@.len() == 4);
    assert("TINYBLOB"@.len() == 8);
    assert("MEDIUMBLOB"@.len() == 10);
    assert("LONGBLOB"@.len() == 8);
    assert("BINARY"@.len() == 6);
    assert("VARBINARY"@.len() == 9);
    assert("VARCHAR"@.len() == 7);
    assert("TEXT"@.len() == 4);
    assert("CHAR"@.len() == 4);
    assert("BOOLEAN"@[0] != "TINYINT"@[0]);
    assert("BOOLEAN"@[0] != "DECIMAL"@[0]);
    assert("BOOLEAN"@[0] != "VARCHAR"@[0]);
    assert("TINYINT"@[0] != "DECIMAL"@[0]);
    assert("TINYINT"@[0] != "VARCHAR"@[0]);
    assert("SMALLINT"@[0] != "DATETIME"@[0]);
    assert("SMALLINT"@[0] != "TINYBLOB"@[0]);
    assert("SMALLINT"@[0] != "LONGBLOB"@[0]);
    assert("MEDIUMINT"@[0] != "TIMESTAMP"@[0]);
    assert("MEDIUMINT"@[0] != "VARBINARY"@[0]);
    assert("BIGINT"@[0] != "DOUBLE"@[0]);
    assert("BIGINT"@[2] != "BINARY"@[2]);
    assert("DOUBLE"@[0] != "BINARY"@[0]);
    assert("DECIMAL"@[0] != "VARCHAR"@[0]);
    assert("JSON"@[0] != "DATE"@[0]);
    assert("JSON"@[0] != "TIME"@[0]);
    assert("JSON"@[0] != "BLOB"@[0]);
    assert("JSON"@[0] != "TEXT"@[0]);
    assert("JSON"@[0] != "CHAR"@[0]);
    assert("DATE"@[0] != "TIME"@[0]);
    assert("DATE"@[0] != "BLOB"@[0]);
    assert("DATE"@[0] != "TEXT"@[0]);
    assert("DATE"@[0] != "CHAR"@[0]);
    assert("TIME"@[0] != "BLOB"@[0]);
    assert("TIME"@[1] != "TEXT"@[1]);
    assert("TIME"@[0] != "CHAR"@[0]);
    assert("DATETIME"@[0] != "TINYBLOB"@[0]);
    assert("DATETIME"@[0] != "LONGBLOB"@[0]);
    assert("TIMESTAMP"@[0] != "VARBINARY"@[0]);
    assert("BLOB"@[0] != "TEXT"@[0]);
    assert("BLOB"@[0] != "CHAR"@[0]);
    assert("TINYBLOB"@[0] != "LONGBLOB"@[0]);
    assert("TEXT"@[0] != "CHAR"@[0]);
}

pub fn cell_decoder(t: &str) -> (d: CellDecoder)
    ensures
        d == decoder_for(t@),
{
    if str_eq(t, "BOOLEAN") || str_eq(t, "TINYINT") {
        CellDecoder::Int8
    } else if str_eq(t, "SMALLINT") {
        CellDecoder::Int16
    } else if str_eq(t, "MEDIUMINT") || str_eq(t, "INT") {
        CellDecoder::Int32
    } else if str_eq(t, "BIGINT") {
        CellDecoder::Int64
    } else if str_eq(t, "TINYINT UNSIGNED") {
        CellDecoder::UInt8
    } else if str_eq(t, "SMALLINT UNSIGNED") {
        CellDecoder::UInt16
    } else if str_eq(t, "MEDIUMINT UNSIGNED") || str_eq(t, "INT UNSIGNED") {
        CellDecoder::UInt32
    } else if str_eq(t, "BIGINT UNSIGNED") {
        CellDecoder::UInt64
    } else if str_eq(t, "FLOAT") {
        CellDecoder::Float32
    } else if str_eq(t, "DOUBLE") {
        CellDecoder::Float64
    } else if str_eq(t, "DECIMAL") {
        CellDecoder::Decimal
    } else if str_eq(t, "JSON") {
        CellDecoder::Json
    } else if str_eq(t, "DATE") {
        CellDecoder::Date
    } else if str_eq(t, "TIME") {
        CellDecoder::Time
    } else if str_eq(t, "DATETIME") {
        CellDecoder::DateTime
    } else if str_eq(t, "TIMESTAMP") {
        CellDecoder::Timestamp
    } else if str_eq(t, "BLOB") || str_eq(t, "TINYBLOB") || str_eq(t, "MEDIUMBLOB") || str_eq(
        t,
        "LONGBLOB",
    ) || str_eq(t, "BINARY") || str_eq(t, "VARBINARY") {
        CellDecoder::Bytes
    } else {
        CellDecoder::Unsupported
    }
}

/// Metadata of a result column: name, type and ordinal only.
pub fn column_metadata(name: &str, column_type: &str, ordinal: usize) -> (m: ResultColumnMetadata)
    ensures
        m.name@ == name@,
        m.column_type@ == column_type@,
        m.ordinal == ordinal,
        m.table_name is None,
        m.is_nullable is None,
{
    ResultColumnMetadata {
        name: owned(name),
        column_type: owned(column_type),
        ordinal,
        table_name: None,
        is_nullable: None,
    }
}

// ---------------------------------------------------------------------------
// information_schema values
// ---------------------------------------------------------------------------

/// MySQL's own schemas, left out of database listings.
pub open spec fn is_system_schema_spec(name: Seq<char>) -> bool {
    name == "mysql"@ || name == "information_schema"@ || name == "performance_schema"@ || name
        == "sys"@
}

pub fn is_system_schema(name: &str) -> (b: bool)
    ensures
        b == is_system_schema_spec(name@),
{
    str_eq(name, "mysql") || str_eq(name, "information_schema") || str_eq(
        name,
        "performance_schema",
    ) || str_eq(name, "sys")
}

/// The databases of a listing of schema names, in order, without MySQL's
/// own schemas.
pub open spec fn user_schema_names(names: Seq<Seq<char>>) -> Seq<Seq<char>>
    decreases names.len(),
{
    if names.len() == 0 {
        Seq::empty()
    } else {
        let rest = user_schema_names(names.drop_last());
        if is_system_schema_spec(names.last()) {
            rest
        } else {
            rest.push(names.last())
        }
    }
}

/// MySQL's own schemas (`mysql`, `information_schema`, `performance_schema`
/// and `sys`) are system schemas, and a database listing is exactly the
/// listed names, in order, with every occurrence of these four left out.
pub proof fn lemma_listing_omits_system_schemas(names: Seq<Seq<char>>)
    ensures
        is_system_schema_spec("mysql"@),
        is_system_schema_spec("information_schema"@),
        is_system_schema_spec("performance_schema"@),
        is_system_schema_spec("sys"@),
        user_schema_names(names) == names.filter(
            |n: Seq<char>|
                n != "mysql"@ && n != "information_schema"@ && n != "performance_schema"@ && n
                    != "sys"@,
        ),
    decreases names.len(),
{
    reveal(Seq::filter);
    if names.len() > 0 {
        lemma_listing_omits_system_schemas(names.drop_last());
    }
}

pub fn user_databases(names: &Vec<String>) -> (r: Vec<DatabaseInfo>)
    ensures
        Seq::new(r@.len(), |i: int| r@[i].datname@) == user_schema_names(strings_view(names@)),
{
    let ghost nv = strings_view(names@);
    let mut out: Vec<DatabaseInfo> = Vec::new();
    let mut i: usize = 0;
    while i < names.len()
        invariant
            0 <= i <= names@.len(),
            nv == strings_view(names@),
            Seq::new(out@.len(), |k: int| out@[k].datname@) == user_schema_names(
                nv.take(i as int),
            ),
        decreases names@.len() - i,
    {
        assert(nv.take(i + 1).drop_last() =~= nv.take(i as int));
        let ghost before = Seq::new(out@.len(), |k: int| out@[k].datname@);
        if !is_system_schema(names[i].as_str()) {
            out.push(DatabaseInfo { datname: names[i].clone() });
            assert(Seq::new(out@.len(), |k: int| out@[k].datname@) =~= before.push(names@[i as int]@));
        }
        i = i + 1;
    }
    assert(nv.take(names@.len() as int) =~= nv);
    out
}

/// A comma-separated column list: empty text is no columns.
pub open spec fn column_list(csv: Seq<char>) -> Seq<Seq<char>> {
    if csv.len() == 0 {
        Seq::empty()
    } else {
        split_on(csv, ',')
    }
}

pub fn split_column_list(csv: &str) -> (r: Vec<String>)
    ensures
        strings_view(r@) == column_list(csv@),
{
    if csv.is_empty() {
        let r = Vec::new();
        assert(strings_view(r@) =~= Seq::<Seq<char>>::empty());
        r
    } else {
        split_char(csv, ',')
    }
}

/// A constraint's column list, which may be absent.
pub fn constraint_columns(csv: &Option<String>) -> (r: Vec<String>)
    ensures
        strings_view(r@) == (match csv {
            Some(c) => column_list(c@),
            None => Seq::empty(),
        }),
{
    match csv {
        Some(c) => split_column_list(c.as_str()),
        None => {
            let r = Vec::new();
            assert(strings_view(r@) =~= Seq::<Seq<char>>::empty());
            r
        },
    }
}

/// A computed 0/1 flag; a missing value counts as 0.
pub fn flag_value(v: Option<i64>) -> (b: bool)
    ensures
        b == (match v {
            Some(x) => x != 0,
            None => false,
        }),
{
    match v {
        Some(x) => x != 0,
        None => false,
    }
}

/// `CHARACTER_MAXIMUM_LENGTH`, read as `i64` or else as `u64`, narrowed to
/// `i32` (truncating, as `as` does).
pub fn character_length(as_i64: Option<i64>, as_u64: Option<u64>) -> (r: Option<i32>)
    ensures
        r == (match as_i64 {
            Some(v) => Some(v as i32),
            None => match as_u64 {
                Some(v) => Some((v as i64) as i32),
                None => None,
            },
        }),
{
    match as_i64 {
        Some(v) => Some(v as i32),
        None => match as_u64 {
            Some(v) => Some((v as i64) as i32),
            None => None,
        },
    }
}

/// `NUMERIC_PRECISION` / `NUMERIC_SCALE`, read as `u64` or else as `i64`,
/// narrowed to `i32` (truncating, as `as` does).
pub fn numeric_attribute(as_u64: Option<u64>, as_i64: Option<i64>) -> (r: Option<i32>)
    ensures
        r == (match as_u64 {
            Some(v) => Some(v as i32),
            None => match as_i64 {
                Some(v) => Some((v as u64) as i32),
                None => None,
            },
        }),
{
    match as_u64 {
        Some(v) => Some(v as i32),
        None => match as_i64 {
            Some(v) => Some((v as u64) as i32),
            None => None,
        },
    }
}

/// `ORDINAL_POSITION`, read as `u32` or else as `i64`; 0 when neither.
pub fn ordinal_position(as_u32: Option<u32>, as_i64: Option<i64>) -> (r: i32)
    ensures
        r == (match as_u32 {
            Some(v) => v as i32,
            None => match as_i64 {
                Some(v) => v as i32,
                None => 0,
            },
        }),
{
    match as_u32 {
        Some(v) => v as i32,
        None => match as_i64 {
            Some(v) => v as i32,
            None => 0,
        },
    }
}

/// The metadata of a result's columns, given each column's name and type
/// in order: ordinals count from 0.
pub fn result_columns(cols: &Vec<(String, String)>) -> (v: Vec<ResultColumnMetadata>)
    ensures
        v@.len() == cols@.len(),
        forall|i: int|
            0 <= i < cols@.len() ==> {
                &&& (#[trigger] v@[i]).name@ == cols@[i].0@
                &&& v@[i].column_type@ == cols@[i].1@
                &&& v@[i].ordinal == i
                &&& v@[i].table_name is None
                &&& v@[i].is_nullable is None
            },
{
    let mut v: Vec<ResultColumnMetadata> = Vec::new();
    let mut i: usize = 0;
    while i < cols.len()
        invariant
            i <= cols@.len(),
            v@.len() == i,
            forall|k: int|
                0 <= k < i ==> {
                    &&& (#[trigger] v@[k]).name@ == cols@[k].0@
                    &&& v@[k].column_type@ == cols@[k].1@
                    &&& v@[k].ordinal == k
                    &&& v@[k].table_name is None
                    &&& v@[k].is_nullable is None
                },
        decreases cols@.len() - i,
    {
        v.push(column_metadata(cols[i].0.as_str(), cols[i].1.as_str(), i));
        i = i + 1;
    }
    v
}

} // verus!
