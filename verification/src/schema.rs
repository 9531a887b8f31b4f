//! Schema introspection logic: selecting user tables out of the engine's
//! catalog listing, and shaping raw catalog rows into table metadata.

use vstd::prelude::*;
use vstd::string::StrSliceExecFns;
use crate::error::DatabaseError;
use crate::models::ColumnInfo;
use crate::models::PragmaColumnRow;
use crate::models::TableInfo;

verus! {

/// Whether `c` is, without regard to ASCII case, the character at
/// position `k` of the engine's reserved prefix `sqlite_`.
pub open spec fn internal_prefix_char(k: int, c: char) -> bool {
    if k == 0 {
        c == 's' || c == 'S'
    } else if k == 1 {
        c == 'q' || c == 'Q'
    } else if k == 2 {
        c == 'l' || c == 'L'
    } else if k == 3 {
        c == 'i' || c == 'I'
    } else if k == 4 {
        c == 't' || c == 'T'
    } else if k == 5 {
        c == 'e' || c == 'E'
    } else if k == 6 {
        c == '_'
    } else {
        false
    }
}

/// True when a table name begins with the engine's reserved catalog
/// prefix `sqlite_` and is therefore internal, not a user table. The
/// match ignores ASCII case, as the engine's own catalog matching does.
pub open spec fn is_internal_name(s: Seq<char>) -> bool {
    s.len() >= 7 && (forall|k: int| 0 <= k < 7 ==> internal_prefix_char(k, #[trigger] s[k]))
}

fn prefix_char_at(k: usize, c: char) -> (r: bool)
    requires
        k < 7,
    ensures
        r == internal_prefix_char(k as int, c),
{
    if k == 0 {
        c == 's' || c == 'S'
    } else if k == 1 {
        c == 'q' || c == 'Q'
    } else if k == 2 {
        c == 'l' || c == 'L'
    } else if k == 3 {
        c == 'i' || c == 'I'
    } else if k == 4 {
        c == 't' || c == 'T'
    } else if k == 5 {
        c == 'e' || c == 'E'
    } else {
        c == '_'
    }
}

fn has_internal_prefix(name: &str) -> (r: bool)
    ensures
        r == is_internal_name(name@),
{
    let n = name.unicode_len();
    if n < 7 {
        return false;
    }
    let mut k: usize = 0;
    let mut all: bool = true;
    while k < 7
        invariant
            0 <= k <= 7,
            7 <= n == name@.len(),
            all == (forall|m: int| 0 <= m < k ==> internal_prefix_char(m, #[trigger] name@[m])),
        decreases 7 - k,
    {
        let good = prefix_char_at(k, name.get_char(k));
        all = all && good;
        k = k + 1;
    }
    all
}

/// The user-table selection: the present, non-internal names of the
/// catalog listing, kept in their given order. An absent name (a NULL in
/// the catalog read) is dropped.
pub open spec fn user_table_sel(names: Seq<Option<Seq<char>>>) -> Seq<Seq<char>>
    decreases names.len(),
{
    if names.len() == 0 {
        Seq::empty()
    } else {
        let rest = user_table_sel(names.drop_last());
        match names.last() {
            Option::Some(s) => if is_internal_name(s) {
                rest
            } else {
                rest.push(s)
            },
            Option::None => rest,
        }
    }
}

/// Law: the user-table selection excludes every name with the engine's
/// internal prefix, and keeps every present name without it.
pub proof fn lemma_user_table_sel_complete(names: Seq<Option<Seq<char>>>)
    ensures
        forall|i: int|
            0 <= i < user_table_sel(names).len() ==> !is_internal_name(
                #[trigger] user_table_sel(names)[i],
            ),
        forall|j: int|
            0 <= j < names.len() && (#[trigger] names[j]) is Some && !is_internal_name(
                names[j].unwrap(),
            ) ==> user_table_sel(names).contains(names[j].unwrap()),
    decreases names.len(),
{
    if names.len() > 0 {
        lemma_user_table_sel_complete(names.drop_last());
        let rest = user_table_sel(names.drop_last());
        let sel = user_table_sel(names);
        assert forall|j: int|
            0 <= j < names.len() && (#[trigger] names[j]) is Some && !is_internal_name(
                names[j].unwrap(),
            ) implies sel.contains(names[j].unwrap()) by {
            if j < names.len() - 1 {
                assert(names.drop_last()[j] == names[j]);
                assert(rest.contains(names[j].unwrap()));
                let k = choose|k: int| 0 <= k < rest.len() && rest[k] == names[j].unwrap();
                assert(sel[k] == names[j].unwrap());
            } else {
                assert(names.last() == names[j]);
                assert(sel == rest.push(names[j].unwrap()));
                assert(sel[rest.len() as int] == names[j].unwrap());
            }
        }
    }
}

/// Keeps exactly the present, non-internal table names, in order.
pub fn user_tables_from_names(names: Vec<Option<String>>) -> (r: Vec<String>)
    ensures
        r.deep_view() == user_table_sel(names.deep_view()),
{
    let mut r: Vec<String> = Vec::new();
    proof {
        assert(names.deep_view().take(0) =~= Seq::<Option<Seq<char>>>::empty());
        assert(r.deep_view() =~= Seq::<Seq<char>>::empty());
    }
    let mut idx: usize = 0;
    while idx < names.len()
        invariant
            0 <= idx <= names.len(),
            r.deep_view() == user_table_sel(names.deep_view().take(idx as int)),
        decreases names.len() - idx,
    {
        let ghost prefix = names.deep_view().take(idx as int);
        let ghost prefix1 = names.deep_view().take(idx as int + 1);
        proof {
            assert(prefix1.drop_last() =~= prefix);
            assert(prefix1.last() == names.deep_view()[idx as int]);
        }
        match &names[idx] {
            Option::Some(s) => {
                if !has_internal_prefix(s.as_str()) {
                    let ghost old_r = r.deep_view();
                    r.push(s.clone());
                    proof {
                        assert(r.deep_view() =~= old_r.push(s@));
                    }
                }
            },
            Option::None => {},
        }
        idx = idx + 1;
    }
    proof {
        assert(names.deep_view().take(names@.len() as int) =~= names.deep_view());
    }
    r
}

/// How one catalog row maps to the column metadata handed back: the name,
/// declared type and default value pass through unchanged; NULL is allowed
/// exactly when the catalog's notnull flag is clear; the primary-key flag
/// is set exactly when the catalog places the column somewhere in the
/// primary key.
pub open spec fn column_of_row(row: PragmaColumnRow, c: ColumnInfo) -> bool {
    &&& c.name@ == row.name@
    &&& c.data_type@ == row.data_type@
    &&& c.nullable == (row.notnull == 0)
    &&& c.primary_key == (row.primary_key_index != 0)
    &&& c.default_value.deep_view() == row.default_value.deep_view()
}

/// Maps the raw catalog rows of one table to its column metadata, in the
/// engine-reported order.
pub fn columns_from_pragma(rows: &Vec<PragmaColumnRow>) -> (r: Vec<ColumnInfo>)
    ensures
        r.len() == rows.len(),
        forall|i: int| 0 <= i < rows.len() ==> column_of_row(rows@[i], #[trigger] r@[i]),
{
    let mut r: Vec<ColumnInfo> = Vec::new();
    let mut i: usize = 0;
    while i < rows.len()
        invariant
            0 <= i <= rows.len(),
            r.len() == i,
            forall|k: int| 0 <= k < i ==> column_of_row(rows@[k], #[trigger] r@[k]),
        decreases rows.len() - i,
    {
        let row = &rows[i];
        let default_value = match &row.default_value {
            Option::Some(s) => Option::Some(s.clone()),
            Option::None => Option::None,
        };
        r.push(
            ColumnInfo {
                name: row.name.clone(),
                data_type: row.data_type.clone(),
                nullable: row.notnull == 0,
                primary_key: row.primary_key_index != 0,
                default_value,
            },
        );
        i = i + 1;
    }
    r
}

/// Assembles the metadata of one table from its raw catalog rows and the
/// row-count probe's outcome. Column introspection of a nonexistent table
/// yields no rows, so an empty listing fails as a missing table — not as a
/// generic query failure — before any row count is considered.
pub fn table_info_from_rows(
    name: String,
    rows: &Vec<PragmaColumnRow>,
    row_count: Option<u64>,
) -> (r: Result<TableInfo, DatabaseError>)
    ensures
        rows.len() == 0 ==> (r matches Err(e) && e matches DatabaseError::TableNotFound(m) && m@
            == name@),
        rows.len() > 0 ==> (r matches Ok(t) && {
            &&& t.name@ == name@
            &&& t.columns.len() == rows.len()
            &&& forall|i: int|
                0 <= i < rows.len() ==> column_of_row(rows@[i], #[trigger] t.columns@[i])
            &&& t.row_count == row_count
        }),
{
    if rows.len() == 0 {
        return Err(DatabaseError::TableNotFound(name));
    }
    let columns = columns_from_pragma(rows);
    Ok(TableInfo { name, columns, row_count })
}

/// Interprets the single cell of a row-count probe: a present,
/// non-negative count becomes the count; anything else (a failed probe, or
/// a value no count can take) is reported as absent rather than an error.
pub fn row_count_from_cell(cell: Option<i64>) -> (r: Option<u64>)
    ensures
        r == (match cell {
            Option::Some(c) => if c >= 0 {
                Option::Some(c as u64)
            } else {
                Option::None::<u64>
            },
            Option::None => Option::None::<u64>,
        }),
{
    match cell {
        Option::Some(c) => if c >= 0 {
            Option::Some(c as u64)
        } else {
            Option::None
        },
        Option::None => Option::None,
    }
}

} // verus!
