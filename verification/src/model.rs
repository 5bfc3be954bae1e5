//! The mathematical model of the editor: what every operation does to the
//! lines, the cursor and the viewport.

use crate::width::{column_for_offset, display_width};
use vstd::prelude::*;

verus! {

/// Which way the terminal has to scroll before a frame is drawn.
#[derive(Clone, Copy, Debug, PartialEq, Eq, Structural)]
pub enum Scroll {
    /// The visible height is what it was.
    Keep,
    /// The visible height grew: scroll the terminal up by the cursor's row.
    Up,
    /// The visible height shrank: scroll the terminal down by the cursor's row.
    Down,
}

/// The state of an editor as plain mathematical values.
pub ghost struct EditorView {
    /// The document, line by line, without line breaks.
    pub lines: Seq<Seq<char>>,
    /// The line that holds the cursor.
    pub cursor_line: nat,
    /// The cursor's column: the number of characters before it.
    pub cursor_column: nat,
    /// The first visible line.
    pub view_pos: nat,
    /// The height of the frame that was drawn last, 0 before the first.
    pub view_height: nat,
}

impl EditorView {
    /// There is a line, and the cursor stands on a line and within it or
    /// just behind its last character.
    pub open spec fn wf(self) -> bool {
        &&& self.lines.len() >= 1
        &&& self.cursor_line < self.lines.len()
        &&& self.cursor_column <= self.lines[self.cursor_line as int].len()
    }

    /// The cursor's line lies within the viewport and the viewport within
    /// the document.
    pub open spec fn cursor_visible(self) -> bool {
        &&& self.view_height >= 1
        &&& self.view_pos <= self.cursor_line
        &&& self.cursor_line + 1 <= self.view_pos + self.view_height
        &&& self.view_pos + self.view_height <= self.lines.len()
    }

    /// The line that holds the cursor.
    pub open spec fn current_line(self) -> Seq<char> {
        self.lines[self.cursor_line as int]
    }

    /// The display offset of the cursor: the width of what stands before it
    /// on its line.
    pub open spec fn cursor_offset(self) -> nat {
        display_width(self.current_line().take(self.cursor_column as int))
    }

    /// One character to the left, or to the end of the line above.
    pub open spec fn move_left(self) -> Self {
        if self.cursor_column > 0 {
            EditorView { cursor_column: (self.cursor_column - 1) as nat, ..self }
        } else if self.cursor_line > 0 {
            EditorView {
                cursor_line: (self.cursor_line - 1) as nat,
                cursor_column: self.lines[self.cursor_line - 1].len(),
                ..self
            }
        } else {
            self
        }
    }

    /// One character to the right, or to the start of the line below.
    pub open spec fn move_right(self) -> Self {
        if self.cursor_column < self.current_line().len() {
            EditorView { cursor_column: self.cursor_column + 1, ..self }
        } else if self.cursor_line + 1 < self.lines.len() {
            EditorView { cursor_line: self.cursor_line + 1, cursor_column: 0, ..self }
        } else {
            self
        }
    }

    /// To the line above, at the column of the same display offset; on the
    /// first line, to its start.
    pub open spec fn move_up(self) -> Self {
        if self.cursor_line > 0 {
            EditorView {
                cursor_line: (self.cursor_line - 1) as nat,
                cursor_column: column_for_offset(
                    self.lines[self.cursor_line - 1],
                    self.cursor_offset(),
                ),
                ..self
            }
        } else {
            EditorView { cursor_column: 0, ..self }
        }
    }

    /// To the line below, at the column of the same display offset; on the
    /// last line, to its end.
    pub open spec fn move_down(self) -> Self {
        if self.cursor_line + 1 < self.lines.len() {
            EditorView {
                cursor_line: self.cursor_line + 1,
                cursor_column: column_for_offset(
                    self.lines[self.cursor_line as int + 1],
                    self.cursor_offset(),
                ),
                ..self
            }
        } else {
            EditorView { cursor_column: self.current_line().len(), ..self }
        }
    }

    /// `c` enters at the cursor, which moves behind it.
    pub open spec fn insert_char(self, c: char) -> Self {
        EditorView {
            lines: self.lines.update(
                self.cursor_line as int,
                self.current_line().insert(self.cursor_column as int, c),
            ),
            cursor_column: self.cursor_column + 1,
            ..self
        }
    }

    /// The cursor's line ends at the cursor; what followed it becomes the
    /// next line, and the cursor moves to that line's start.
    pub open spec fn split_line(self) -> Self {
        EditorView {
            lines: self.lines.update(
                self.cursor_line as int,
                self.current_line().take(self.cursor_column as int),
            ).insert(
                self.cursor_line as int + 1,
                self.current_line().skip(self.cursor_column as int),
            ),
            cursor_line: self.cursor_line + 1,
            cursor_column: 0,
            ..self
        }
    }

    /// The character before the cursor leaves. At the start of a line the
    /// line joins the one above, and the cursor stands where that one ended.
    /// At the start of the document nothing changes.
    pub open spec fn erase(self) -> Self {
        if self.cursor_column > 0 {
            EditorView {
                lines: self.lines.update(
                    self.cursor_line as int,
                    self.current_line().remove(self.cursor_column - 1),
                ),
                cursor_column: (self.cursor_column - 1) as nat,
                ..self
            }
        } else if self.cursor_line > 0 {
            EditorView {
                lines: self.lines.remove(self.cursor_line as int).update(
                    self.cursor_line - 1,
                    self.lines[self.cursor_line - 1] + self.current_line(),
                ),
                cursor_line: (self.cursor_line - 1) as nat,
                cursor_column: self.lines[self.cursor_line - 1].len(),
                ..self
            }
        } else {
            self
        }
    }

    /// The number of lines to show on a terminal of `terminal_height` rows:
    /// the smaller of that and the document's height, but not less than one.
    pub open spec fn visible_height(self, terminal_height: nat) -> nat {
        if terminal_height == 0 {
            1
        } else if terminal_height < self.lines.len() {
            terminal_height
        } else {
            self.lines.len()
        }
    }

    /// The first visible line of a frame of `height` lines that was at
    /// `view_pos` before: moved up to the cursor, then up to fit the document,
    /// then down to the cursor, each only as far as needed.
    pub open spec fn scrolled_pos(self, height: nat) -> nat {
        let above = if self.view_pos > self.cursor_line {
            self.cursor_line
        } else {
            self.view_pos
        };
        let within = if above + height > self.lines.len() {
            (self.lines.len() - height) as nat
        } else {
            above
        };
        if self.cursor_line + 1 > within + height {
            (self.cursor_line + 1 - height) as nat
        } else {
            within
        }
    }

    /// The scroll that a frame on a terminal of `terminal_height` rows asks
    /// for.
    pub open spec fn scroll_for(self, terminal_height: nat) -> Scroll {
        let height = self.visible_height(terminal_height);
        if height == self.view_height {
            Scroll::Keep
        } else if height > self.view_height {
            Scroll::Up
        } else {
            Scroll::Down
        }
    }

    /// The state after a frame was drawn on a terminal of `terminal_height`
    /// rows.
    pub open spec fn refresh(self, terminal_height: nat) -> Self {
        let height = self.visible_height(terminal_height);
        EditorView { view_pos: self.scrolled_pos(height), view_height: height, ..self }
    }
}

} // verus!
