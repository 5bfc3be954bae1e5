//! Frames: the drawing commands that paint the visible lines, their line
//! numbers and the cursor.

use crate::model::{EditorView, Scroll};
use vstd::prelude::*;

verus! {

/// One step of painting a frame on the terminal.
#[derive(Clone, Copy, Debug, PartialEq, Eq, Structural)]
pub enum DrawCommand {
    /// Put the terminal's cursor at a column and a row, both counted from 0.
    MoveTo { column: u16, row: u16 },
    /// Clear the screen from the cursor down.
    ClearBelow,
    /// Go to the start of the next row.
    LineBreak,
    /// Put the terminal's cursor at a column of its row.
    MoveToColumn(u16),
    /// Print a line number, dimmed.
    LineNumber(usize),
    /// Print one space.
    Space,
    /// Print a tab: four dimmed spaces.
    Tab,
    /// Print a character as it is.
    Glyph(char),
}

/// What a redraw hands to the terminal: the scroll to make first, then the
/// commands of the frame.
pub struct Frame {
    /// The scroll to make before anything is painted.
    pub scroll: Scroll,
    /// The commands that paint the frame, in order.
    pub commands: Vec<DrawCommand>,
}

/// The number of decimal digits of `n`.
pub open spec fn decimal_digits(n: nat) -> nat
    decreases n,
{
    if n < 10 {
        1
    } else {
        1 + decimal_digits(n / 10)
    }
}

/// `n` as a terminal coordinate, which has 16 bits: `n` modulo 65536.
pub open spec fn coordinate(n: nat) -> u16 {
    (n % 0x10000) as u16
}

/// The command that prints `c`.
pub open spec fn glyph(c: char) -> DrawCommand {
    if c == '\t' {
        DrawCommand::Tab
    } else {
        DrawCommand::Glyph(c)
    }
}

/// The commands that print the characters of `line`.
pub open spec fn line_commands(line: Seq<char>) -> Seq<DrawCommand> {
    Seq::new(line.len(), |i: int| glyph(line[i]))
}

/// The width of the line-number gutter of `view`: the number of digits of
/// its largest line number.
pub open spec fn gutter_width(view: EditorView) -> nat {
    decimal_digits(view.lines.len())
}

/// The commands of the visible row `row`: a line break unless it is the
/// first, the line number set flush right in the gutter, a space, and the
/// line.
pub open spec fn row_commands(view: EditorView, row: nat) -> Seq<DrawCommand> {
    let number = view.view_pos + row + 1;
    let lead = if row > 0 {
        seq![DrawCommand::LineBreak]
    } else {
        Seq::<DrawCommand>::empty()
    };
    lead + seq![
        DrawCommand::MoveToColumn(
            coordinate((gutter_width(view) + 1 - decimal_digits(number)) as nat),
        ),
        DrawCommand::LineNumber(number as usize),
        DrawCommand::Space,
    ] + line_commands(view.lines[(view.view_pos + row) as int])
}

/// The commands of the first `rows` visible rows.
pub open spec fn rows_commands(view: EditorView, rows: nat) -> Seq<DrawCommand>
    decreases rows,
{
    if rows == 0 {
        Seq::empty()
    } else {
        rows_commands(view, (rows - 1) as nat) + row_commands(view, (rows - 1) as nat)
    }
}

/// Where the terminal's cursor stands after a frame: behind the gutter, a
/// column and the separating space, at the cursor's display offset, on the
/// cursor's row of the viewport.
pub open spec fn cursor_command(view: EditorView) -> DrawCommand {
    DrawCommand::MoveTo {
        column: coordinate(gutter_width(view) + 2 + view.cursor_offset()),
        row: coordinate((view.cursor_line - view.view_pos) as nat),
    }
}

/// The commands of a frame of `view`: go to the origin, clear from there,
/// print the visible rows, place the cursor.
pub open spec fn frame_commands(view: EditorView) -> Seq<DrawCommand> {
    seq![DrawCommand::MoveTo { column: 0, row: 0 }, DrawCommand::ClearBelow] + rows_commands(
        view,
        view.view_height,
    ) + seq![cursor_command(view)]
}

/// A larger number has no fewer digits.
pub proof fn lemma_digits_monotonic(a: nat, b: nat)
    requires
        a <= b,
    ensures
        decimal_digits(a) <= decimal_digits(b),
    decreases b,
{
    if a >= 10 {
        lemma_digits_monotonic(a / 10, b / 10);
    }
}

/// The number of decimal digits of `n`.
pub fn count_digits(n: usize) -> (digits: usize)
    ensures
        digits == decimal_digits(n as nat),
        digits >= 1,
{
    let mut digits: usize = 1;
    let mut rest: usize = n;
    while rest >= 10
        invariant
            digits >= 1,
            digits + rest <= n + 1,
            decimal_digits(n as nat) == digits - 1 + decimal_digits(rest as nat),
        decreases rest,
    {
        rest = rest / 10;
        digits += 1;
    }
    digits
}

/// `n` as a terminal coordinate.
pub fn to_coordinate(n: usize) -> (c: u16)
    ensures
        c == coordinate(n as nat),
{
    (n % 0x10000) as u16
}

/// The coordinate of the sum of three numbers, which itself may be too
/// large for the machine's word.
pub fn sum_coordinate(a: usize, b: usize, c: usize) -> (r: u16)
    ensures
        r == coordinate((a + b + c) as nat),
{
    let low: usize = a % 0x10000 + b % 0x10000 + c % 0x10000;
    (low % 0x10000) as u16
}

/// Appends the commands that print `line`.
pub fn push_line(commands: &mut Vec<DrawCommand>, line: &Vec<char>)
    ensures
        final(commands)@ == old(commands)@ + line_commands(line@),
{
    let mut i: usize = 0;
    while i < line.len()
        invariant
            i <= line@.len(),
            commands@ == old(commands)@ + line_commands(line@.take(i as int)),
        decreases line@.len() - i,
    {
        let c = line[i];
        proof {
            assert(line_commands(line@.take(i + 1)) =~= line_commands(line@.take(i as int)).push(
                glyph(c),
            ));
        }
        if c == '\t' {
            commands.push(DrawCommand::Tab);
        } else {
            commands.push(DrawCommand::Glyph(c));
        }
        i += 1;
    }
    assert(line@.take(i as int) =~= line@);
}

} // verus!
