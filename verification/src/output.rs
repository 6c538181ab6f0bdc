//! What the tables show: header captions and cell texts. Rendering and
//! printing are left to the caller.
use vstd::prelude::*;

use crate::json::{json_kind, json_kind_of, json_member, json_member_of, json_text, json_text_of, JsonKind, JsonShape};
use crate::text::{ascii_upper_all, uppercase};

verus! {

/// The text of a JSON value in a table cell: `-` for null, strings without
/// quotes, `true`/`false`, and compact JSON for everything else.
pub open spec fn cell_text_of(v: serde_json::Value) -> Seq<char> {
    match json_kind_of(v) {
        JsonShape::Null => "-"@,
        JsonShape::Str(s) => s,
        JsonShape::Bool(b) => if b { "true"@ } else { "false"@ },
        _ => json_text_of(v),
    }
}

/// The text of a JSON value in a table cell.
pub fn cell_text(v: &serde_json::Value) -> (res: String)
    ensures
        res@ == cell_text_of(*v),
{
    match json_kind(v) {
        JsonKind::Null => String::from_str("-"),
        JsonKind::Str(s) => s,
        JsonKind::Bool(b) => if b {
            String::from_str("true")
        } else {
            String::from_str("false")
        },
        _ => json_text(v),
    }
}

/// The cell of `row` in column `column`: the member's text, `-` when the
/// member is missing (only top-level members are looked up).
pub open spec fn cell_of(row: serde_json::Value, column: Seq<char>) -> Seq<char> {
    match json_member_of(row, column) {
        Some(m) => cell_text_of(m),
        None => "-"@,
    }
}

/// The cell of `row` in column `column`.
pub fn cell(row: &serde_json::Value, column: &str) -> (res: String)
    ensures
        res@ == cell_of(*row, column@),
{
    match json_member(row, column) {
        Some(m) => cell_text(&m),
        None => String::from_str("-"),
    }
}

/// The header of a table: the column names in ASCII upper case.
pub fn table_header(columns: &[&str]) -> (res: Vec<String>)
    ensures
        res@.len() == columns@.len(),
        forall|i: int| 0 <= i < columns@.len() ==> #[trigger] res@[i]@ == ascii_upper_all(columns@[i]@),
{
    let mut res: Vec<String> = Vec::new();
    let mut i: usize = 0;
    while i < columns.len()
        invariant
            i <= columns@.len(),
            res@.len() == i,
            forall|j: int| 0 <= j < i ==> #[trigger] res@[j]@ == ascii_upper_all(columns@[j]@),
        decreases columns@.len() - i,
    {
        res.push(uppercase(columns[i]));
        i = i + 1;
    }
    res
}

/// One table row: the cell of `row` in each column, in order.
pub fn table_row(row: &serde_json::Value, columns: &[&str]) -> (res: Vec<String>)
    ensures
        res@.len() == columns@.len(),
        forall|i: int| 0 <= i < columns@.len() ==> #[trigger] res@[i]@ == cell_of(*row, columns@[i]@),
{
    let mut res: Vec<String> = Vec::new();
    let mut i: usize = 0;
    while i < columns.len()
        invariant
            i <= columns@.len(),
            res@.len() == i,
            forall|j: int| 0 <= j < i ==> #[trigger] res@[j]@ == cell_of(*row, columns@[j]@),
        decreases columns@.len() - i,
    {
        res.push(cell(row, columns[i]));
        i = i + 1;
    }
    res
}

/// The header of a field/value table of one object.
pub fn object_table_header() -> (res: Vec<&'static str>)
    ensures
        res@ == seq!["FIELD", "VALUE"],
{
    vec!["FIELD", "VALUE"]
}

/// The rows of a field/value table of one object: each label with the cell
/// of its field (a top-level member of `value`).
pub fn object_table_rows(value: &serde_json::Value, rows: &[(&str, &str)]) -> (res: Vec<
    (String, String),
>)
    ensures
        res@.len() == rows@.len(),
        forall|i: int|
            0 <= i < rows@.len() ==> {
                &&& (#[trigger] res@[i]).0@ == rows@[i].0@
                &&& res@[i].1@ == cell_of(*value, rows@[i].1@)
            },
{
    let mut res: Vec<(String, String)> = Vec::new();
    let mut i: usize = 0;
    while i < rows.len()
        invariant
            i <= rows@.len(),
            res@.len() == i,
            forall|j: int|
                0 <= j < i ==> {
                    &&& (#[trigger] res@[j]).0@ == rows@[j].0@
                    &&& res@[j].1@ == cell_of(*value, rows@[j].1@)
                },
        decreases rows@.len() - i,
    {
        let (label, field) = rows[i];
        res.push((String::from_str(label), cell(value, field)));
        i = i + 1;
    }
    res
}

/// Law: a cell shows `-` for a missing member and for `null`, a string
/// without quotes, a boolean as `true` or `false`, and any other value as its
/// compact JSON text; the header is the column name in ASCII upper case.
pub proof fn lemma_cell_texts(row: serde_json::Value, column: Seq<char>, v: serde_json::Value)
    ensures
        json_member_of(row, column) is None ==> cell_of(row, column) == "-"@,
        json_member_of(row, column) matches Some(m) ==> cell_of(row, column) == cell_text_of(m),
        json_kind_of(v) is Null ==> cell_text_of(v) == "-"@,
        json_kind_of(v) matches JsonShape::Str(t) ==> cell_text_of(v) == t,
        json_kind_of(v) == JsonShape::Bool(true) ==> cell_text_of(v) == "true"@,
        json_kind_of(v) == JsonShape::Bool(false) ==> cell_text_of(v) == "false"@,
        json_kind_of(v) is Number || json_kind_of(v) is Array || json_kind_of(v) is Object
            ==> cell_text_of(v) == json_text_of(v),
{
}

} // verus!
