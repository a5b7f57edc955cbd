//! Schema introspection decisions shared by both engines.
use vstd::prelude::*;
use crate::database::types::{DatabaseSchema, TableSchema};
use crate::text::{str_eq, strings_view};

verus! {

/// Whether a table is included: every table without a filter, otherwise
/// exactly the tables the filter names.
pub open spec fn table_included(filter: Option<Seq<Seq<char>>>, name: Seq<char>) -> bool {
    match filter {
        None => true,
        Some(f) => f.contains(name),
    }
}

pub fn table_selected(filter: &Option<Vec<String>>, name: &str) -> (b: bool)
    ensures
        b == table_included(
            match filter {
                Some(f) => Some(strings_view(f@)),
                None => None,
            },
            name@,
        ),
{
    match filter {
        None => true,
        Some(f) => contains_string(f, name),
    }
}

/// Whether `name` is one of the strings of `v`.
pub fn contains_string(v: &Vec<String>, name: &str) -> (b: bool)
    ensures
        b == strings_view(v@).contains(name@),
{
    let ghost fv = strings_view(v@);
    let mut i: usize = 0;
    while i < v.len()
        invariant
            0 <= i <= v@.len(),
            fv == strings_view(v@),
            forall|k: int| 0 <= k < i ==> fv[k] != name@,
        decreases v@.len() - i,
    {
        if str_eq(v[i].as_str(), name) {
            assert(fv[i as int] == name@);
            return true;
        }
        i = i + 1;
    }
    false
}

/// `information_schema`'s `IS_NULLABLE` text: only `YES` means nullable.
pub fn is_yes(s: &str) -> (b: bool)
    ensures
        b == (s@ == "YES"@),
{
    str_eq(s, "YES")
}

/// A description that is present only when non-empty.
pub fn non_empty(o: Option<String>) -> (r: Option<String>)
    ensures
        r.deep_view() == (match o {
            Some(s) => if s@.len() > 0 {
                Some(s@)
            } else {
                None
            },
            None => None,
        }),
{
    match o {
        Some(s) => if s.as_str().is_empty() {
            None
        } else {
            Some(s)
        },
        None => None,
    }
}

/// The schema of the selected tables, with their count.
pub fn assemble_schema(tables: Vec<TableSchema>) -> (s: DatabaseSchema)
    ensures
        s.tables@ == tables@,
        s.total_tables == tables@.len(),
{
    let total_tables = tables.len();
    DatabaseSchema { tables, total_tables }
}

} // verus!
