//! Textual handling of SQL: the read/write classification heuristic and
//! identifier quoting for statements that must embed a table name.

use vstd::prelude::*;
use vstd::string::StrSliceExecFns;
use vstd::string::StringExecFns;

verus! {

/// The whitespace characters that trimming removes, per the Unicode
/// White_Space property.
pub open spec fn is_space_char(c: char) -> bool {
    ||| c == '\u{0009}'
    ||| c == '\u{000a}'
    ||| c == '\u{000b}'
    ||| c == '\u{000c}'
    ||| c == '\u{000d}'
    ||| c == '\u{0020}'
    ||| c == '\u{0085}'
    ||| c == '\u{00a0}'
    ||| c == '\u{1680}'
    ||| ('\u{2000}' <= c && c <= '\u{200a}')
    ||| c == '\u{2028}'
    ||| c == '\u{2029}'
    ||| c == '\u{202f}'
    ||| c == '\u{205f}'
    ||| c == '\u{3000}'
}

fn is_space(c: char) -> (r: bool)
    ensures
        r == is_space_char(c),
{
    c == '\u{0009}' || c == '\u{000a}' || c == '\u{000b}' || c == '\u{000c}' || c == '\u{000d}'
        || c == '\u{0020}' || c == '\u{0085}' || c == '\u{00a0}' || c == '\u{1680}' || ('\u{2000}'
        <= c && c <= '\u{200a}') || c == '\u{2028}' || c == '\u{2029}' || c == '\u{202f}' || c
        == '\u{205f}' || c == '\u{3000}'
}

/// `s` with its leading whitespace removed.
pub open spec fn trim_start(s: Seq<char>) -> Seq<char>
    decreases s.len(),
{
    if s.len() > 0 && is_space_char(s[0]) {
        trim_start(s.drop_first())
    } else {
        s
    }
}

/// Whether `c` is a character whose uppercasing is exactly the letter at
/// position `k` of `SELECT`. Besides the two ASCII case variants, the one
/// other character the uppercasing map sends to a letter of `SELECT` is
/// U+017F LATIN SMALL LETTER LONG S, which uppercases to `S`.
pub open spec fn select_letter_at(k: int, c: char) -> bool {
    if k == 0 {
        c == 'S' || c == 's' || c == '\u{017f}'
    } else if k == 1 || k == 3 {
        c == 'E' || c == 'e'
    } else if k == 2 {
        c == 'L' || c == 'l'
    } else if k == 4 {
        c == 'C' || c == 'c'
    } else if k == 5 {
        c == 'T' || c == 't'
    } else {
        false
    }
}

/// The classification of one SQL text: it is a read (row-producing)
/// statement when, after leading whitespace is trimmed, the uppercased
/// text begins with the token `SELECT`; everything else is treated as a
/// write. A textual heuristic, not a parse: texts beginning with `WITH`
/// and multi-statement scripts misclassify as writes.
pub open spec fn spec_is_select(s: Seq<char>) -> bool {
    let t = trim_start(s);
    t.len() >= 6 && (forall|k: int| 0 <= k < 6 ==> select_letter_at(k, #[trigger] t[k]))
}

fn select_letter(k: usize, c: char) -> (r: bool)
    requires
        k < 6,
    ensures
        r == select_letter_at(k as int, c),
{
    if k == 0 {
        c == 'S' || c == 's' || c == '\u{017f}'
    } else if k == 1 || k == 3 {
        c == 'E' || c == 'e'
    } else if k == 2 {
        c == 'L' || c == 'l'
    } else if k == 4 {
        c == 'C' || c == 'c'
    } else {
        c == 'T' || c == 't'
    }
}

/// Classifies one SQL text as read (`true`) or write (`false`).
pub fn is_select_sql(sql: &str) -> (r: bool)
    ensures
        r == spec_is_select(sql@),
{
    let n = sql.unicode_len();
    let mut i: usize = 0;
    proof {
        assert(sql@.skip(0) =~= sql@);
    }
    while i < n && is_space(sql.get_char(i))
        invariant
            0 <= i <= n,
            n == sql@.len(),
            trim_start(sql@) == trim_start(sql@.skip(i as int)),
        decreases n - i,
    {
        proof {
            assert(sql@.skip(i as int)[0] == sql@[i as int]);
            assert(sql@.skip(i as int).drop_first() =~= sql@.skip(i as int + 1));
        }
        i = i + 1;
    }
    proof {
        if i == n {
            assert(sql@.skip(i as int) =~= Seq::<char>::empty());
        }
        assert(trim_start(sql@) == sql@.skip(i as int));
    }
    if n - i < 6 {
        return false;
    }
    let mut k: usize = 0;
    let mut all: bool = true;
    while k < 6
        invariant
            0 <= k <= 6,
            i + 6 <= n,
            n == sql@.len(),
            trim_start(sql@) == sql@.skip(i as int),
            all == (forall|m: int|
                0 <= m < k ==> select_letter_at(m, #[trigger] trim_start(sql@)[m])),
        decreases 6 - k,
    {
        let good = select_letter(k, sql.get_char(i + k));
        proof {
            assert(trim_start(sql@)[k as int] == sql@[i as int + k as int]);
        }
        all = all && good;
        k = k + 1;
    }
    all
}

/// `s` with every double-quote character doubled.
pub open spec fn escaped_ident(s: Seq<char>) -> Seq<char>
    decreases s.len(),
{
    if s.len() == 0 {
        Seq::empty()
    } else {
        escaped_ident(s.drop_last()) + (if s.last() == '"' {
            seq!['"', '"']
        } else {
            seq![s.last()]
        })
    }
}

/// The identifier `s` made safe for direct embedding in SQL text: wrapped
/// in double quotes, with embedded double quotes doubled, so that a
/// crafted table name cannot break out of the quoted position.
pub open spec fn quoted_ident(s: Seq<char>) -> Seq<char> {
    seq!['"'] + escaped_ident(s) + seq!['"']
}

/// Quotes `name` as a SQL identifier.
pub fn quote_identifier(name: &str) -> (r: String)
    ensures
        r@ == quoted_ident(name@),
{
    let n = name.unicode_len();
    let mut out = String::from_str("\"");
    proof {
        reveal_strlit("\"");
        assert(out@ =~= seq!['"'] + escaped_ident(name@.take(0)));
    }
    let mut i: usize = 0;
    while i < n
        invariant
            0 <= i <= n,
            n == name@.len(),
            out@ == seq!['"'] + escaped_ident(name@.take(i as int)),
        decreases n - i,
    {
        let piece = name.substring_char(i, i + 1);
        proof {
            assert(piece@ =~= seq![name@[i as int]]);
        }
        if name.get_char(i) == '"' {
            out.append(piece);
        }
        out.append(piece);
        proof {
            assert(name@.take(i as int + 1).drop_last() =~= name@.take(i as int));
            assert(name@.take(i as int + 1).last() == name@[i as int]);
            assert(out@ =~= seq!['"'] + escaped_ident(name@.take(i as int + 1)));
        }
        i = i + 1;
    }
    out.append("\"");
    proof {
        assert(name@.take(n as int) =~= name@);
        assert(out@ =~= quoted_ident(name@));
    }
    out
}

/// The row-count statement for one table, with the table name embedded as
/// a quoted identifier (a table name cannot be a bound parameter there).
pub fn count_query_for(table: &str) -> (r: String)
    ensures
        r@ == "SELECT COUNT(*) FROM "@ + quoted_ident(table@),
{
    let mut s = String::from_str("SELECT COUNT(*) FROM ");
    let q = quote_identifier(table);
    s.append(q.as_str());
    s
}

} // verus!
