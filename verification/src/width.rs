//! Display widths of characters and of runs of characters.

use unicode_width::UnicodeWidthChar;
use vstd::prelude::*;

verus! {

/// The number of terminal columns that the Unicode width tables give to `c`,
/// or `None` where the tables class `c` as a control character.
pub uninterp spec fn unicode_width(c: char) -> Option<usize>;

/// The display width of a tab.
pub const TAB_WIDTH: usize = 4;

/// Calls `UnicodeWidthChar::width` of the crate `unicode-width`.
///
/// The result is the table's answer for `c`, which depends on `c` alone.
/// Beyond naming it, the contract states what the lookup shows directly:
/// code points below U+0020 and from U+007F up to U+00A0 are control
/// characters, the rest of ASCII is one column wide, and no width is more
/// than three columns.
#[verifier::external_body]
fn table_width(c: char) -> (r: Option<usize>)
    ensures
        r == unicode_width(c),
        r.is_some() ==> r.unwrap() <= 3,
        (c as u32) < 0x20 || 0x7f <= (c as u32) < 0xa0 ==> r.is_none(),
        0x20 <= (c as u32) < 0x7f ==> r == Some(1usize),
{
    c.width()
}

/// The display width of a character for which the width tables answered
/// `table`: four columns for a tab, the table's width for every other
/// character, and one column where the table has none.
pub open spec fn spec_width_from_table(c: char, table: Option<usize>) -> nat {
    if c == '\t' {
        4
    } else {
        match table {
            Some(w) => w as nat,
            None => 1,
        }
    }
}

/// The display width of one character.
pub open spec fn spec_char_width(c: char) -> nat {
    spec_width_from_table(c, unicode_width(c))
}

/// The display width of a run of characters: the sum of their widths.
pub open spec fn display_width(s: Seq<char>) -> nat
    decreases s.len(),
{
    if s.len() == 0 {
        0
    } else {
        display_width(s.drop_last()) + spec_char_width(s.last())
    }
}

/// Scans `line` from column `from` and gives the first column whose
/// character, once included, makes the width exceed `offset`; the length of
/// the line where there is none.
pub open spec fn scan_column(line: Seq<char>, offset: nat, from: nat) -> nat
    decreases line.len() - from,
{
    if from >= line.len() {
        line.len()
    } else if display_width(line.take((from + 1) as int)) > offset {
        from
    } else {
        scan_column(line, offset, from + 1)
    }
}

/// The column of `line` that stands at display offset `offset`.
pub open spec fn column_for_offset(line: Seq<char>, offset: nat) -> nat {
    scan_column(line, offset, 0)
}

/// The display width of `c`, for which the width tables answered `table`.
pub fn width_from_table(c: char, table: Option<usize>) -> (w: usize)
    ensures
        w == spec_width_from_table(c, table),
{
    if c == '\t' {
        TAB_WIDTH
    } else {
        match table {
            Some(w) => w,
            None => 1,
        }
    }
}

/// The display width of `c`.
pub fn char_width(c: char) -> (w: usize)
    ensures
        w == spec_char_width(c),
        w <= 4,
        0x20 <= (c as u32) < 0x7f ==> w == 1,
        c != '\t' && ((c as u32) < 0x20 || 0x7f <= (c as u32) < 0xa0) ==> w == 1,
{
    width_from_table(c, table_width(c))
}

/// Taking one more character adds that character's width.
pub proof fn lemma_width_step(line: Seq<char>, k: int)
    requires
        0 <= k < line.len(),
    ensures
        display_width(line.take(k + 1)) == display_width(line.take(k)) + spec_char_width(line[k]),
{
    assert(line.take(k + 1).drop_last() =~= line.take(k));
}

/// A scan never leaves the line and never goes back.
pub proof fn lemma_scan_bounds(line: Seq<char>, offset: nat, from: nat)
    requires
        from <= line.len(),
    ensures
        from <= scan_column(line, offset, from) <= line.len(),
    decreases line.len() - from,
{
    if from < line.len() && display_width(line.take((from + 1) as int)) <= offset {
        lemma_scan_bounds(line, offset, from + 1);
    }
}

/// The width of the first `column` characters of `line`.
pub fn width_before(line: &Vec<char>, column: usize) -> (offset: usize)
    requires
        column <= line@.len(),
        4 * line@.len() <= usize::MAX,
    ensures
        offset == display_width(line@.take(column as int)),
        offset <= 4 * column,
{
    let mut offset: usize = 0;
    let mut i: usize = 0;
    while i < column
        invariant
            i <= column <= line@.len(),
            4 * line@.len() <= usize::MAX,
            offset == display_width(line@.take(i as int)),
            offset <= 4 * i,
        decreases column - i,
    {
        let w = char_width(line[i]);
        proof {
            lemma_width_step(line@, i as int);
        }
        offset += w;
        i += 1;
    }
    offset
}

/// The column of `line` at display offset `offset`: the first column whose
/// character, once included, makes the width exceed `offset`.
pub fn column_at(line: &Vec<char>, offset: usize) -> (column: usize)
    requires
        4 * line@.len() <= usize::MAX,
    ensures
        column == column_for_offset(line@, offset as nat),
        column <= line@.len(),
{
    let mut width: usize = 0;
    let mut column: usize = 0;
    while column < line.len()
        invariant
            column <= line@.len(),
            4 * line@.len() <= usize::MAX,
            width == display_width(line@.take(column as int)),
            width <= 4 * column,
            scan_column(line@, offset as nat, column as nat) == column_for_offset(
                line@,
                offset as nat,
            ),
        decreases line@.len() - column,
    {
        let w = char_width(line[column]);
        proof {
            lemma_width_step(line@, column as int);
        }
        width += w;
        if width > offset {
            return column;
        }
        column += 1;
    }
    column
}

} // verus!
