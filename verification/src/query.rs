//! Query-result shaping: normalizing what the engine fetched into the
//! uniform tabular shape handed back to the caller.

use vstd::prelude::*;
use vstd::string::StringExecFns;
use crate::models::QueryResult;
use crate::numfmt::dec_of;
use crate::numfmt::push_decimal;

verus! {

/// The positional placeholder label of read-result column `j`: `col_`
/// followed by the decimal column index.
pub open spec fn col_label(j: nat) -> Seq<char> {
    "col_"@ + dec_of(j)
}

fn column_labels(n: usize) -> (r: Vec<String>)
    ensures
        r.len() == n,
        forall|j: int| 0 <= j < n ==> (#[trigger] r@[j])@ == col_label(j as nat),
{
    let mut r: Vec<String> = Vec::new();
    let mut j: usize = 0;
    while j < n
        invariant
            0 <= j <= n,
            r.len() == j,
            forall|k: int| 0 <= k < j ==> (#[trigger] r@[k])@ == col_label(k as nat),
        decreases n - j,
    {
        let mut s = String::from_str("col_");
        push_decimal(&mut s, j as u64);
        r.push(s);
        j = j + 1;
    }
    r
}

fn normalized_row(row: &Vec<Option<String>>, width: usize) -> (r: Vec<Option<String>>)
    ensures
        r.len() == width,
        forall|j: int|
            0 <= j < width ==> r@[j] == (if j < row.len() {
                row@[j]
            } else {
                Option::None::<String>
            }),
{
    let mut r: Vec<Option<String>> = Vec::new();
    let mut j: usize = 0;
    while j < width
        invariant
            0 <= j <= width,
            r.len() == j,
            forall|k: int|
                0 <= k < j ==> r@[k] == (if k < row.len() {
                    row@[k]
                } else {
                    Option::None::<String>
                }),
        decreases width - j,
    {
        if j < row.len() {
            let cell = match &row[j] {
                Option::Some(s) => Option::Some(s.clone()),
                Option::None => Option::None,
            };
            r.push(cell);
        } else {
            r.push(Option::None);
        }
        j = j + 1;
    }
    r
}

/// Shapes a fetched read result. The first row's width fixes the column
/// count: labels are positional placeholders, every row is brought to that
/// width (missing cells read as NULL), cell values pass through verbatim
/// with NULL kept as an absent value, and the row count is the number of
/// rows fetched. Zero fetched rows yield an empty shape with no column
/// labels.
pub fn build_read_result(cells: &Vec<Vec<Option<String>>>, execution_time_ms: u64) -> (r:
    QueryResult)
    ensures
        r.execution_time_ms == execution_time_ms,
        r.row_count == r.rows.len(),
        cells.len() == 0 ==> r.columns.len() == 0 && r.rows.len() == 0,
        cells.len() > 0 ==> {
            &&& r.columns.len() == cells@[0].len()
            &&& forall|j: int|
                0 <= j < r.columns.len() ==> (#[trigger] r.columns@[j])@ == col_label(j as nat)
            &&& r.rows.len() == cells.len()
            &&& forall|i: int| 0 <= i < cells.len() ==> (#[trigger] r.rows@[i]).len()
                == cells@[0].len()
            &&& forall|i: int, j: int|
                0 <= i < cells.len() && 0 <= j < cells@[0].len() ==> #[trigger] r.rows@[i]@[j] == (
                if j < cells@[i].len() {
                    cells@[i]@[j]
                } else {
                    Option::None::<String>
                })
        },
{
    if cells.len() == 0 {
        return QueryResult {
            columns: Vec::new(),
            rows: Vec::new(),
            execution_time_ms,
            row_count: 0,
        };
    }
    let width = cells[0].len();
    let columns = column_labels(width);
    let mut rows: Vec<Vec<Option<String>>> = Vec::new();
    let mut i: usize = 0;
    while i < cells.len()
        invariant
            0 <= i <= cells.len(),
            width == cells@[0].len(),
            rows.len() == i,
            forall|k: int| 0 <= k < i ==> (#[trigger] rows@[k]).len() == width,
            forall|k: int, j: int|
                0 <= k < i && 0 <= j < width ==> #[trigger] rows@[k]@[j] == (if j
                    < cells@[k].len() {
                    cells@[k]@[j]
                } else {
                    Option::None::<String>
                }),
        decreases cells.len() - i,
    {
        let row = normalized_row(&cells[i], width);
        rows.push(row);
        i = i + 1;
    }
    let row_count = rows.len();
    QueryResult { columns, rows, execution_time_ms, row_count }
}

/// Shapes a write result: a single synthetic row under the fixed
/// `affected_rows` label, whose one cell is the engine's affected-row
/// count rendered in decimal, with a row count fixed at 1.
pub fn build_write_result(affected: u64, execution_time_ms: u64) -> (r: QueryResult)
    ensures
        r.columns.len() == 1,
        r.columns@[0]@ == "affected_rows"@,
        r.rows.len() == 1,
        r.rows@[0].len() == 1,
        r.rows@[0]@[0] matches Some(v) && v@ == dec_of(affected as nat),
        r.row_count == 1,
        r.execution_time_ms == execution_time_ms,
{
    let mut columns: Vec<String> = Vec::new();
    columns.push(String::from_str("affected_rows"));
    let mut count_text = String::new();
    push_decimal(&mut count_text, affected);
    proof {
        assert(count_text@ =~= dec_of(affected as nat));
    }
    let mut cell_row: Vec<Option<String>> = Vec::new();
    cell_row.push(Option::Some(count_text));
    let mut rows: Vec<Vec<Option<String>>> = Vec::new();
    rows.push(cell_row);
    QueryResult { columns, rows, execution_time_ms, row_count: 1 }
}

} // verus!
