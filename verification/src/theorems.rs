//! What holds of the editor's operations, proved over the model.

use crate::model::EditorView;
use crate::width::{
    column_for_offset, display_width, lemma_scan_bounds, lemma_width_step, scan_column,
    spec_char_width,
};
use vstd::prelude::*;

verus! {

impl EditorView {
    /// The state after the characters of `chars` were typed, one by one.
    pub open spec fn insert_all(self, chars: Seq<char>) -> Self
        decreases chars.len(),
    {
        if chars.len() == 0 {
            self
        } else {
            self.insert_all(chars.drop_last()).insert_char(chars.last())
        }
    }

    /// The state after `count` backspaces.
    pub open spec fn erase_times(self, count: nat) -> Self
        decreases count,
    {
        if count == 0 {
            self
        } else {
            self.erase().erase_times((count - 1) as nat)
        }
    }
}

/// Every character of `line` is one column wide.
pub open spec fn single_width(line: Seq<char>) -> bool {
    forall|i: int| 0 <= i < line.len() ==> spec_char_width(#[trigger] line[i]) == 1
}

/// Every operation on the document and the cursor keeps the state well
/// formed.
pub proof fn lemma_operations_keep_wf(view: EditorView, c: char)
    requires
        view.wf(),
    ensures
        view.move_left().wf(),
        view.move_right().wf(),
        view.move_up().wf(),
        view.move_down().wf(),
        view.insert_char(c).wf(),
        view.split_line().wf(),
        view.erase().wf(),
{
    if view.cursor_line > 0 {
        lemma_scan_bounds(view.lines[view.cursor_line - 1], view.cursor_offset(), 0);
    }
    if view.cursor_line + 1 < view.lines.len() {
        lemma_scan_bounds(view.lines[view.cursor_line as int + 1], view.cursor_offset(), 0);
    }
}

/// A backspace directly after a typed character restores the state.
pub proof fn lemma_erase_undoes_insert(view: EditorView, c: char)
    requires
        view.wf(),
    ensures
        view.insert_char(c).erase() == view,
{
    let line = view.current_line();
    let column = view.cursor_column as int;
    assert(line.insert(column, c).remove(column) =~= line);
    assert(view.insert_char(c).erase().lines =~= view.lines);
}

/// A backspace directly after a line was split joins the two halves again
/// and restores the state.
pub proof fn lemma_erase_undoes_split(view: EditorView)
    requires
        view.wf(),
    ensures
        view.split_line().erase() == view,
{
    let line = view.current_line();
    let column = view.cursor_column as int;
    let split = view.split_line();
    assert(split.lines[view.cursor_line as int] == line.take(column));
    assert(split.lines[view.cursor_line as int + 1] == line.skip(column));
    assert(line.take(column) + line.skip(column) =~= line);
    assert(split.erase().lines =~= view.lines);
}

/// Typing any characters and then as many backspaces restores the state:
/// the document, the cursor and the viewport.
pub proof fn lemma_erasing_undoes_typing(view: EditorView, chars: Seq<char>)
    requires
        view.wf(),
    ensures
        view.insert_all(chars).wf(),
        view.insert_all(chars).erase_times(chars.len()) == view,
    decreases chars.len(),
{
    if chars.len() > 0 {
        let before = view.insert_all(chars.drop_last());
        lemma_erasing_undoes_typing(view, chars.drop_last());
        lemma_operations_keep_wf(before, chars.last());
        lemma_erase_undoes_insert(before, chars.last());
    }
}

/// On a line of single-width characters the width of a prefix is its
/// length.
pub proof fn lemma_single_width_prefix(line: Seq<char>, k: int)
    requires
        single_width(line),
        0 <= k <= line.len(),
    ensures
        display_width(line.take(k)) == k,
    decreases k,
{
    if k > 0 {
        lemma_single_width_prefix(line, k - 1);
        lemma_width_step(line, k - 1);
    }
}

/// On a line of single-width characters a scan stops at the offset, or at
/// the end of the line where the line is shorter.
pub proof fn lemma_single_width_scan(line: Seq<char>, offset: nat, from: nat)
    requires
        single_width(line),
        from <= line.len(),
        from <= offset,
    ensures
        scan_column(line, offset, from) == if offset < line.len() {
            offset
        } else {
            line.len()
        },
    decreases line.len() - from,
{
    if from < line.len() {
        lemma_single_width_prefix(line, from as int + 1);
        if from < offset {
            lemma_single_width_scan(line, offset, from + 1);
        }
    }
}

/// Between two lines of single-width characters, moving up keeps the
/// column, as far as the line above reaches.
pub proof fn lemma_move_up_keeps_column(view: EditorView)
    requires
        view.wf(),
        view.cursor_line > 0,
        single_width(view.current_line()),
        single_width(view.lines[view.cursor_line - 1]),
    ensures
        view.cursor_column <= view.lines[view.cursor_line - 1].len() ==> view.move_up().cursor_column
            == view.cursor_column,
        view.cursor_column > view.lines[view.cursor_line - 1].len() ==> view.move_up().cursor_column
            == view.lines[view.cursor_line - 1].len(),
{
    lemma_single_width_prefix(view.current_line(), view.cursor_column as int);
    lemma_single_width_scan(view.lines[view.cursor_line - 1], view.cursor_offset(), 0);
}

/// Between two lines of single-width characters, moving down keeps the
/// column, as far as the line below reaches.
pub proof fn lemma_move_down_keeps_column(view: EditorView)
    requires
        view.wf(),
        view.cursor_line + 1 < view.lines.len(),
        single_width(view.current_line()),
        single_width(view.lines[view.cursor_line as int + 1]),
    ensures
        view.cursor_column <= view.lines[view.cursor_line as int + 1].len()
            ==> view.move_down().cursor_column == view.cursor_column,
        view.cursor_column > view.lines[view.cursor_line as int + 1].len()
            ==> view.move_down().cursor_column == view.lines[view.cursor_line as int + 1].len(),
{
    lemma_single_width_prefix(view.current_line(), view.cursor_column as int);
    lemma_single_width_scan(view.lines[view.cursor_line as int + 1], view.cursor_offset(), 0);
}

/// The width of a prefix grows with the prefix.
pub proof fn lemma_width_monotonic(line: Seq<char>, j: int, k: int)
    requires
        0 <= j <= k <= line.len(),
    ensures
        display_width(line.take(j)) <= display_width(line.take(k)),
    decreases k - j,
{
    if j < k {
        lemma_width_monotonic(line, j, k - 1);
        lemma_width_step(line, k - 1);
    }
}

/// A scan that starts at or before `column` finds `column` for the offset of
/// `column`, where a character of some width stands at `column` or the line
/// ends there.
pub proof fn lemma_scan_finds_column(line: Seq<char>, column: nat, from: nat)
    requires
        from <= column <= line.len(),
        column < line.len() ==> spec_char_width(line[column as int]) > 0,
    ensures
        scan_column(line, display_width(line.take(column as int)), from) == column,
    decreases column - from,
{
    if from < column {
        lemma_width_monotonic(line, from as int + 1, column as int);
        lemma_scan_finds_column(line, column, from + 1);
    } else if column < line.len() {
        lemma_width_step(line, column as int);
    }
}

/// The column of a display offset is the inverse of the display offset of
/// a column: from the offset of `column` the way leads back to `column`,
/// where a character of some width stands there or the line ends there.
pub proof fn lemma_column_of_offset(line: Seq<char>, column: nat)
    requires
        column <= line.len(),
        column < line.len() ==> spec_char_width(line[column as int]) > 0,
    ensures
        column_for_offset(line, display_width(line.take(column as int))) == column,
{
    lemma_scan_finds_column(line, column, 0);
}

/// Down and up again leads back: where the line below has only
/// single-width characters and is at least as wide as the cursor's display
/// offset, and a character of some width stands at the cursor or its line
/// ends there, the state after both moves is the state before them.
pub proof fn lemma_down_and_up_returns(view: EditorView)
    requires
        view.wf(),
        view.cursor_line + 1 < view.lines.len(),
        single_width(view.lines[view.cursor_line as int + 1]),
        view.cursor_offset() <= view.lines[view.cursor_line as int + 1].len(),
        view.cursor_column < view.current_line().len() ==> spec_char_width(
            view.current_line()[view.cursor_column as int],
        ) > 0,
    ensures
        view.move_down().cursor_column == view.cursor_offset(),
        view.move_down().move_up() == view,
{
    let below = view.lines[view.cursor_line as int + 1];
    lemma_single_width_scan(below, view.cursor_offset(), 0);
    lemma_single_width_prefix(below, view.cursor_offset() as int);
    lemma_column_of_offset(view.current_line(), view.cursor_column);
}

/// Up and down again leads back, under the conditions of
/// `lemma_down_and_up_returns` for the line above.
pub proof fn lemma_up_and_down_returns(view: EditorView)
    requires
        view.wf(),
        view.cursor_line > 0,
        single_width(view.lines[view.cursor_line - 1]),
        view.cursor_offset() <= view.lines[view.cursor_line - 1].len(),
        view.cursor_column < view.current_line().len() ==> spec_char_width(
            view.current_line()[view.cursor_column as int],
        ) > 0,
    ensures
        view.move_up().cursor_column == view.cursor_offset(),
        view.move_up().move_down() == view,
{
    let above = view.lines[view.cursor_line - 1];
    lemma_single_width_scan(above, view.cursor_offset(), 0);
    lemma_single_width_prefix(above, view.cursor_offset() as int);
    lemma_column_of_offset(view.current_line(), view.cursor_column);
}

/// The column of a display offset is the first whose character reaches
/// beyond the offset: what stands before it fits the offset or it is the
/// first column, and with its character the width exceeds the offset or the
/// line ends there.
pub proof fn lemma_column_for_offset(line: Seq<char>, offset: nat)
    ensures
        column_for_offset(line, offset) <= line.len(),
        column_for_offset(line, offset) > 0 ==> display_width(
            line.take(column_for_offset(line, offset) as int),
        ) <= offset,
        column_for_offset(line, offset) < line.len() ==> display_width(
            line.take(column_for_offset(line, offset) as int + 1),
        ) > offset,
{
    lemma_scan_result(line, offset, 0);
}

/// What `lemma_column_for_offset` says, of a scan from any column.
pub proof fn lemma_scan_result(line: Seq<char>, offset: nat, from: nat)
    requires
        from <= line.len(),
        from > 0 ==> display_width(line.take(from as int)) <= offset,
    ensures
        scan_column(line, offset, from) <= line.len(),
        scan_column(line, offset, from) > 0 ==> display_width(
            line.take(scan_column(line, offset, from) as int),
        ) <= offset,
        scan_column(line, offset, from) < line.len() ==> display_width(
            line.take(scan_column(line, offset, from) as int + 1),
        ) > offset,
    decreases line.len() - from,
{
    if from < line.len() && display_width(line.take((from + 1) as int)) <= offset {
        lemma_scan_result(line, offset, from + 1);
    }
}

/// At the start of the document a move to the left and a backspace change
/// nothing; at its end a move to the right changes nothing.
pub proof fn lemma_boundaries(view: EditorView)
    requires
        view.wf(),
    ensures
        view.cursor_line == 0 && view.cursor_column == 0 ==> view.move_left() == view,
        view.cursor_line == 0 && view.cursor_column == 0 ==> view.erase() == view,
        view.cursor_line + 1 == view.lines.len() && view.cursor_column == view.current_line().len()
            ==> view.move_right() == view,
{
}

/// After a frame was drawn the cursor's line is within the viewport, and
/// the viewport within the document, whatever the terminal's height and
/// wherever the viewport stood.
pub proof fn lemma_refresh_shows_cursor(view: EditorView, terminal_height: nat)
    requires
        view.wf(),
    ensures
        view.refresh(terminal_height).cursor_visible(),
        view.refresh(terminal_height).view_pos <= view.cursor_line,
        view.cursor_line <= view.refresh(terminal_height).view_pos + view.refresh(
            terminal_height,
        ).view_height - 1,
{
}

} // verus!
