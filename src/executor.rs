//! Turns what the store reports for one statement into a statement result.
use vstd::prelude::*;
use crate::{CellValue, ColumnInfo, QueryResult};
use crate::mime::{blob_mime, infer_blob_type, infer_text_type, text_mime};

verus! {

pub open spec fn mime_view(m: Option<String>) -> Option<Seq<char>> {
    match m {
        Some(s) => Some(s@),
        None => None,
    }
}

/// The content type of a cell: text and blobs are classified, numbers and
/// null are not.
pub open spec fn cell_mime(c: CellValue) -> Option<Seq<char>> {
    match c {
        CellValue::String(s) => Some(text_mime(s@)),
        CellValue::Blob(b) => Some(blob_mime(b@)),
        _ => None,
    }
}

/// The first non-null cell of column `j` in rows `i..`.
pub open spec fn first_non_null(rows: Seq<Vec<CellValue>>, j: int, i: int) -> Option<CellValue>
    decreases rows.len() - i,
{
    if i < 0 || i >= rows.len() {
        None
    } else if rows[i]@[j] is Null {
        first_non_null(rows, j, i + 1)
    } else {
        Some(rows[i]@[j])
    }
}

/// The content type of column `j`: that of its first non-null value.
pub open spec fn column_mime(rows: Seq<Vec<CellValue>>, j: int) -> Option<Seq<char>> {
    match first_non_null(rows, j, 0) {
        Some(c) => cell_mime(c),
        None => None,
    }
}

/// Every row has `n` cells.
pub open spec fn rows_have_width(rows: Seq<Vec<CellValue>>, n: int) -> bool {
    forall|i: int| 0 <= i < rows.len() ==> (#[trigger] rows[i]).len() == n
}

/// The columns carry the given names, in order.
pub open spec fn columns_named(cols: Seq<ColumnInfo>, names: Seq<String>) -> bool {
    cols.len() == names.len() && forall|j: int| 0 <= j < cols.len() ==> (#[trigger] cols[j]).name@
        == names[j]@
}

/// Classifies one cell.
pub fn infer_cell_type(c: &CellValue) -> (r: Option<String>)
    ensures
        mime_view(r) == cell_mime(*c),
{
    match c {
        CellValue::String(s) => Some(infer_text_type(s.as_str())),
        CellValue::Blob(b) => Some(infer_blob_type(b.as_slice())),
        _ => None,
    }
}

/// The content type of column `j`, from its first non-null value.
pub fn infer_column_type(rows: &Vec<Vec<CellValue>>, j: usize) -> (r: Option<String>)
    requires
        forall|i: int| 0 <= i < rows.len() ==> j < (#[trigger] rows[i]).len(),
    ensures
        mime_view(r) == column_mime(rows@, j as int),
{
    let mut i: usize = 0;
    while i < rows.len()
        invariant
            i <= rows.len(),
            forall|k: int| 0 <= k < rows.len() ==> j < (#[trigger] rows[k]).len(),
            first_non_null(rows@, j as int, i as int) == first_non_null(rows@, j as int, 0),
        decreases rows.len() - i,
    {
        let c = &rows[i][j];
        if let CellValue::Null = c {
            i = i + 1;
        } else {
            return infer_cell_type(c);
        }
    }
    None
}

/// The result of a read: the rows exactly as the store gave them, no rows
/// affected, and for each column its name and the type of its first
/// non-null value.
pub fn read_result(names: Vec<String>, rows: Vec<Vec<CellValue>>) -> (r: QueryResult)
    requires
        rows_have_width(rows@, names.len() as int),
    ensures
        r.num_affected == 0,
        r.rows@ == rows@,
        columns_named(r.columns@, names@),
        forall|j: int|
            0 <= j < r.columns.len() ==> mime_view((#[trigger] r.columns[j]).mime_type)
                == column_mime(rows@, j),
{
    let mut columns: Vec<ColumnInfo> = Vec::new();
    let mut j: usize = 0;
    while j < names.len()
        invariant
            j <= names.len(),
            rows_have_width(rows@, names.len() as int),
            columns.len() == j,
            columns_named(columns@, names@.take(j as int)),
            forall|k: int|
                0 <= k < j ==> mime_view((#[trigger] columns[k]).mime_type) == column_mime(
                    rows@,
                    k,
                ),
        decreases names.len() - j,
    {
        let m = infer_column_type(&rows, j);
        columns.push(ColumnInfo { name: names[j].clone(), mime_type: m });
        j = j + 1;
    }
    assert(names@.take(names.len() as int) =~= names@);
    QueryResult { num_affected: 0, columns, rows }
}

/// The result of a write: no rows, the count the store reported, and the
/// named columns without content types.
pub fn write_result(names: Vec<String>, affected: usize) -> (r: QueryResult)
    ensures
        r.num_affected == affected,
        r.rows@.len() == 0,
        columns_named(r.columns@, names@),
        forall|j: int| 0 <= j < r.columns.len() ==> (#[trigger] r.columns[j]).mime_type is None,
{
    let mut columns: Vec<ColumnInfo> = Vec::new();
    let mut j: usize = 0;
    while j < names.len()
        invariant
            j <= names.len(),
            columns.len() == j,
            columns_named(columns@, names@.take(j as int)),
            forall|k: int| 0 <= k < j ==> (#[trigger] columns[k]).mime_type is None,
        decreases names.len() - j,
    {
        columns.push(ColumnInfo { name: names[j].clone(), mime_type: None });
        j = j + 1;
    }
    assert(names@.take(names.len() as int) =~= names@);
    QueryResult { num_affected: affected, columns, rows: Vec::new() }
}

} // verus!
