//! The editor: its lines, its cursor and its viewport.

use crate::model::{EditorView, Scroll};
use crate::render::{
    count_digits, frame_commands, gutter_width, lemma_digits_monotonic, push_line, row_commands,
    rows_commands, sum_coordinate, to_coordinate, DrawCommand, Frame,
};
use crate::text::{chars_of, document_lines, join_lines, join_text, lines_view, split_text};
use crate::width::{self, column_for_offset, spec_char_width};
use vstd::prelude::*;

verus! {

/// What a session ends with.
pub struct EditorResult {
    /// Whether the text is to be stored.
    pub save: bool,
    /// The document, its lines joined by line feeds.
    pub content: String,
}

/// A document with a cursor and a viewport.
pub struct SkullEditor {
    lines: Vec<Vec<char>>,
    cursor_column: usize,
    cursor_line: usize,
    view_pos: usize,
    current_view_height: usize,
}

impl View for SkullEditor {
    type V = EditorView;

    closed spec fn view(&self) -> EditorView {
        EditorView {
            lines: lines_view(self.lines@),
            cursor_line: self.cursor_line as nat,
            cursor_column: self.cursor_column as nat,
            view_pos: self.view_pos as nat,
            view_height: self.current_view_height as nat,
        }
    }
}

impl SkullEditor {
    /// The state is well formed and its sizes are such that every display
    /// offset fits the machine's word.
    pub open spec fn wf(&self) -> bool {
        &&& self@.wf()
        &&& self@.lines.len() <= usize::MAX
        &&& self@.view_pos <= usize::MAX
        &&& self@.view_height <= usize::MAX
        &&& forall|i: int|
            0 <= i < self@.lines.len() ==> 4 * #[trigger] self@.lines[i].len() <= usize::MAX
    }

    /// An editor on the document that `input` opens as, with the cursor at
    /// its start and no frame drawn yet.
    pub fn new(input: String) -> (editor: Self)
        requires
            4 * input@.len() <= usize::MAX,
        ensures
            editor.wf(),
            editor@.lines == document_lines(input@),
            editor@.cursor_line == 0,
            editor@.cursor_column == 0,
            editor@.view_pos == 0,
            editor@.view_height == 0,
    {
        let text = chars_of(input.as_str());
        let mut lines = split_text(&text);
        if lines.len() == 0 {
            lines.push(Vec::new());
            assert(lines_view(lines@) =~= seq![Seq::<char>::empty()]);
        }
        SkullEditor { lines, cursor_column: 0, cursor_line: 0, view_pos: 0, current_view_height: 0 }
    }

    /// The document as one text, its lines joined by line feeds.
    pub fn content(&self) -> (content: String)
        ensures
            content@ == join_lines(self@.lines),
    {
        join_text(&self.lines)
    }

    /// The line that holds the cursor, counted from 0.
    pub fn cursor_line(&self) -> (line: usize)
        ensures
            line == self@.cursor_line,
    {
        self.cursor_line
    }

    /// The cursor's column: the number of characters before it on its line.
    pub fn cursor_column(&self) -> (column: usize)
        ensures
            column == self@.cursor_column,
    {
        self.cursor_column
    }

    /// The first visible line.
    pub fn view_pos(&self) -> (line: usize)
        ensures
            line == self@.view_pos,
    {
        self.view_pos
    }

    /// The height of the frame that was drawn last, 0 before the first.
    pub fn view_height(&self) -> (height: usize)
        ensures
            height == self@.view_height,
    {
        self.current_view_height
    }

    /// The length of line `line`, in characters.
    pub fn line_length(&self, line: usize) -> (length: usize)
        requires
            line < self@.lines.len(),
        ensures
            length == self@.lines[line as int].len(),
    {
        self.lines[line].len()
    }

    /// The number of lines.
    pub fn get_height(&self) -> (h: usize)
        ensures
            h == self@.lines.len(),
    {
        self.lines.len()
    }

    /// The length of the cursor's line, in characters.
    pub fn get_width(&mut self) -> (w: usize)
        requires
            old(self).wf(),
        ensures
            *final(self) == *old(self),
            w == old(self)@.current_line().len(),
    {
        self.lines[self.cursor_line].len()
    }

    /// The display width of `c`: 4 for a tab, else what the Unicode tables
    /// give, and 1 where they give none.
    pub fn char_width(c: char) -> (w: usize)
        ensures
            w == spec_char_width(c),
            w <= 4,
            0x20 <= (c as u32) < 0x7f ==> w == 1,
            c != '\t' && ((c as u32) < 0x20 || 0x7f <= (c as u32) < 0xa0) ==> w == 1,
    {
        width::char_width(c)
    }

    /// The display offset of the cursor.
    pub fn get_cursor_offset(&self) -> (offset: usize)
        requires
            self.wf(),
        ensures
            offset == self@.cursor_offset(),
    {
        width::width_before(&self.lines[self.cursor_line], self.cursor_column)
    }

    /// The column of the cursor's line that stands at display offset
    /// `offset`.
    pub fn offset_to_cursor(&self, offset: usize) -> (column: usize)
        requires
            self.wf(),
        ensures
            column == column_for_offset(self@.current_line(), offset as nat),
            column <= self@.current_line().len(),
    {
        width::column_at(&self.lines[self.cursor_line], offset)
    }

    /// Moves the cursor one character to the left, from the start of a line
    /// to the end of the line above. At the start of the document it stays.
    pub fn move_cursor_left(&mut self)
        requires
            old(self).wf(),
        ensures
            final(self).wf(),
            final(self)@ == old(self)@.move_left(),
    {
        if self.cursor_column > 0 {
            self.cursor_column -= 1;
        } else if self.cursor_line > 0 {
            self.cursor_line -= 1;
            self.cursor_column = self.lines[self.cursor_line].len();
        }
    }

    /// Moves the cursor one character to the right, from the end of a line
    /// to the start of the line below. At the end of the document it stays.
    pub fn move_cursor_right(&mut self)
        requires
            old(self).wf(),
        ensures
            final(self).wf(),
            final(self)@ == old(self)@.move_right(),
    {
        if self.cursor_column < self.lines[self.cursor_line].len() {
            self.cursor_column += 1;
        } else if self.cursor_line + 1 < self.lines.len() {
            self.cursor_column = 0;
            self.cursor_line += 1;
        }
    }

    /// Moves the cursor to the line above and keeps its display offset; on
    /// the first line, moves it to the start of the line.
    pub fn move_cursor_up(&mut self)
        requires
            old(self).wf(),
        ensures
            final(self).wf(),
            final(self)@ == old(self)@.move_up(),
    {
        if self.cursor_line > 0 {
            let real_offset = self.get_cursor_offset();
            self.cursor_line -= 1;
            assert(self.lines@[self.cursor_line as int]@ == old(self)@.lines[self.cursor_line as int]);
            self.cursor_column = width::column_at(&self.lines[self.cursor_line], real_offset);
        } else {
            self.cursor_column = 0;
        }
    }

    /// Moves the cursor to the line below and keeps its display offset; on
    /// the last line, moves it to the end of the line.
    pub fn move_cursor_down(&mut self)
        requires
            old(self).wf(),
        ensures
            final(self).wf(),
            final(self)@ == old(self)@.move_down(),
    {
        if self.cursor_line + 1 < self.lines.len() {
            let real_offset = self.get_cursor_offset();
            self.cursor_line += 1;
            assert(self.lines@[self.cursor_line as int]@ == old(self)@.lines[self.cursor_line as int]);
            self.cursor_column = width::column_at(&self.lines[self.cursor_line], real_offset);
        } else {
            self.cursor_column = self.lines[self.cursor_line].len();
        }
    }

    /// Puts `c` in at the cursor and moves the cursor behind it.
    pub fn add_character(&mut self, c: char)
        requires
            old(self).wf(),
            4 * (old(self)@.current_line().len() + 1) <= usize::MAX,
        ensures
            final(self).wf(),
            final(self)@ == old(self)@.insert_char(c),
    {
        self.lines[self.cursor_line].insert(self.cursor_column, c);
        self.cursor_column += 1;
        proof {
            assert(final(self)@.lines =~= old(self)@.insert_char(c).lines);
        }
    }

    /// Ends the cursor's line at the cursor and makes a new line below it of
    /// what followed; the cursor moves to the start of the new line.
    pub fn new_line(&mut self)
        requires
            old(self).wf(),
            old(self)@.lines.len() < usize::MAX,
        ensures
            final(self).wf(),
            final(self)@ == old(self)@.split_line(),
    {
        let new_line = self.lines[self.cursor_line].split_off(self.cursor_column);
        self.cursor_line += 1;
        self.cursor_column = 0;
        self.lines.insert(self.cursor_line, new_line);
        proof {
            assert(final(self)@.lines =~= old(self)@.split_line().lines);
        }
    }

    /// Removes the character before the cursor. At the start of a line it
    /// joins the line to the one above and leaves the cursor where the two
    /// meet. At the start of the document it does nothing.
    pub fn erase_character(&mut self)
        requires
            old(self).wf(),
            old(self)@.cursor_column == 0 && old(self)@.cursor_line > 0 ==> 4 * (
            old(self)@.lines[old(self)@.cursor_line - 1].len() + old(self)@.current_line().len())
                <= usize::MAX,
        ensures
            final(self).wf(),
            final(self)@ == old(self)@.erase(),
    {
        if self.cursor_column > 0 {
            self.cursor_column -= 1;
            self.lines[self.cursor_line].remove(self.cursor_column);
            proof {
                assert(final(self)@.lines =~= old(self)@.erase().lines);
            }
        } else if self.cursor_line > 0 {
            let mut removed_line = self.lines.remove(self.cursor_line);
            self.cursor_line -= 1;
            self.cursor_column = self.lines[self.cursor_line].len();
            self.lines[self.cursor_line].append(&mut removed_line);
            proof {
                assert(final(self)@.lines =~= old(self)@.erase().lines);
            }
        }
    }

    /// Sets the visible height for a terminal of `terminal_height` rows and
    /// moves the viewport so that it holds the cursor. The result says which
    /// way the terminal scrolls when the height has changed.
    pub fn update_viewport(&mut self, terminal_height: u16) -> (scroll: Scroll)
        requires
            old(self).wf(),
        ensures
            final(self).wf(),
            final(self)@ == old(self)@.refresh(terminal_height as nat),
            final(self)@.cursor_visible(),
            scroll == old(self)@.scroll_for(terminal_height as nat),
    {
        let doc_height = self.lines.len();
        let rows = terminal_height as usize;
        let view_height = if rows == 0 {
            1
        } else if rows < doc_height {
            rows
        } else {
            doc_height
        };
        let scroll = if view_height == self.current_view_height {
            Scroll::Keep
        } else if view_height > self.current_view_height {
            Scroll::Up
        } else {
            Scroll::Down
        };
        self.current_view_height = view_height;
        if self.view_pos > self.cursor_line {
            self.view_pos = self.cursor_line;
        }
        if view_height > doc_height - self.view_pos {
            self.view_pos = doc_height - view_height;
        }
        if self.cursor_line - self.view_pos >= view_height {
            self.view_pos = self.cursor_line + 1 - view_height;
        }
        scroll
    }

    /// Appends the commands of the visible row `row` to `commands`.
    fn draw_row(&self, commands: &mut Vec<DrawCommand>, gutter: usize, row: usize)
        requires
            self.wf(),
            self@.cursor_visible(),
            row < self@.view_height,
            gutter == gutter_width(self@),
        ensures
            final(commands)@ == old(commands)@ + row_commands(self@, row as nat),
    {
        if row > 0 {
            commands.push(DrawCommand::LineBreak);
        }
        let number = self.view_pos + row + 1;
        let digits = count_digits(number);
        proof {
            lemma_digits_monotonic(number as nat, self@.lines.len());
        }
        commands.push(DrawCommand::MoveToColumn(to_coordinate(gutter - (digits - 1))));
        commands.push(DrawCommand::LineNumber(number));
        commands.push(DrawCommand::Space);
        push_line(commands, &self.lines[self.view_pos + row]);
        proof {
            assert(final(commands)@ =~= old(commands)@ + row_commands(self@, row as nat));
        }
    }

    /// The commands that paint the frame: the visible lines with their line
    /// numbers, and the cursor.
    pub fn draw(&self) -> (commands: Vec<DrawCommand>)
        requires
            self.wf(),
            self@.cursor_visible(),
        ensures
            commands@ == frame_commands(self@),
    {
        let gutter = count_digits(self.lines.len());
        let mut commands: Vec<DrawCommand> = Vec::new();
        commands.push(DrawCommand::MoveTo { column: 0, row: 0 });
        commands.push(DrawCommand::ClearBelow);
        let ghost head = commands@;
        let mut row: usize = 0;
        while row < self.current_view_height
            invariant
                row <= self@.view_height,
                self.wf(),
                self@.cursor_visible(),
                gutter == gutter_width(self@),
                commands@ == head + rows_commands(self@, row as nat),
            decreases self@.view_height - row,
        {
            self.draw_row(&mut commands, gutter, row);
            proof {
                assert(commands@ =~= head + rows_commands(self@, (row + 1) as nat));
            }
            row += 1;
        }
        let offset = self.get_cursor_offset();
        commands.push(
            DrawCommand::MoveTo {
                column: sum_coordinate(gutter, 2, offset),
                row: to_coordinate(self.cursor_line - self.view_pos),
            },
        );
        commands
    }

    /// Draws a frame for a terminal of `terminal_height` rows: updates the
    /// viewport, then lists the commands that paint it.
    pub fn redraw(&mut self, terminal_height: u16) -> (frame: Frame)
        requires
            old(self).wf(),
        ensures
            final(self).wf(),
            final(self)@ == old(self)@.refresh(terminal_height as nat),
            final(self)@.cursor_visible(),
            frame.scroll == old(self)@.scroll_for(terminal_height as nat),
            frame.commands@ == frame_commands(final(self)@),
    {
        let scroll = self.update_viewport(terminal_height);
        let commands = self.draw();
        Frame { scroll, commands }
    }
}

} // verus!
