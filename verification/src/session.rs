//! The session: which input does what, and when the session ends.

use crate::editor::{EditorResult, SkullEditor};
use crate::model::EditorView;
use crate::render::Frame;
use vstd::prelude::*;

verus! {

/// A key of the keyboard.
#[derive(Clone, Copy, Debug, PartialEq, Eq, Structural)]
pub enum Key {
    Backspace,
    Enter,
    Left,
    Right,
    Up,
    Down,
    Tab,
    Esc,
    /// A key that stands for a character.
    Char(char),
    /// Any other key.
    Other,
}

/// What the terminal reports.
#[derive(Clone, Copy, Debug, PartialEq, Eq, Structural)]
pub enum InputEvent {
    /// A key was pressed; `control` says that Control, and no other
    /// modifier, was held with it.
    Key { key: Key, control: bool },
    /// The terminal changed its size.
    Resize,
    /// Anything else.
    Other,
}

/// Where a session stands.
#[derive(Clone, Copy, Debug, PartialEq, Eq, Structural)]
pub enum Phase {
    /// Keys edit the document.
    Editing,
    /// The user left with Escape and is asked whether to save.
    Confirming,
    /// The save decision is made.
    Finished,
}

/// What the caller does after an event before it waits for the next.
#[derive(Clone, Copy, Debug, PartialEq, Eq, Structural)]
pub enum Action {
    /// Draw a new frame.
    Redraw,
    /// Nothing.
    Wait,
    /// Clear the screen and ask whether to save.
    Prompt,
    /// Clear the screen and end the session.
    Finish,
}

impl EditorView {
    /// The sizes leave room for what `key` does: a line for Enter, a
    /// character for a key that inserts one, the joined line for a
    /// backspace at the start of a line.
    pub open spec fn room_for(self, key: Key, control: bool) -> bool {
        if is_erase(key, control) {
            self.cursor_column == 0 && self.cursor_line > 0 ==> 4 * (self.lines[self.cursor_line
                - 1].len() + self.current_line().len()) <= usize::MAX
        } else if key == Key::Enter {
            self.lines.len() < usize::MAX
        } else if key is Char || key == Key::Tab {
            4 * (self.current_line().len() + 1) <= usize::MAX
        } else {
            true
        }
    }

    /// The state after `key` in the editing phase.
    pub open spec fn apply_key(self, key: Key, control: bool) -> Self {
        if is_erase(key, control) {
            self.erase()
        } else {
            match key {
                Key::Enter => self.split_line(),
                Key::Left => self.move_left(),
                Key::Right => self.move_right(),
                Key::Up => self.move_up(),
                Key::Down => self.move_down(),
                Key::Char(c) => self.insert_char(c),
                Key::Tab => self.insert_char('\t'),
                _ => self,
            }
        }
    }
}

/// The key erases: Backspace, or Control with `h`.
pub open spec fn is_erase(key: Key, control: bool) -> bool {
    key == Key::Backspace || (control && key == Key::Char('h'))
}

/// The key ends the session and saves: Control with `s`.
pub open spec fn is_force_save(key: Key, control: bool) -> bool {
    control && key == Key::Char('s')
}

/// The answer that an event gives to the question whether to save: yes for
/// the key `y`, no for the key `n`, none for anything else.
pub open spec fn answer(event: InputEvent) -> Option<bool> {
    match event {
        InputEvent::Key { key: Key::Char(c), control: _ } => if c == 'y' {
            Some(true)
        } else if c == 'n' {
            Some(false)
        } else {
            None
        },
        _ => None,
    }
}

/// An editing session: an editor, the phase, and the save decision.
pub struct Session {
    pub editor: SkullEditor,
    pub phase: Phase,
    pub save: bool,
}

impl Session {
    /// The sizes leave room for what `event` does in this phase.
    pub open spec fn room_for(&self, event: InputEvent) -> bool {
        match event {
            InputEvent::Key { key, control } => self.phase == Phase::Editing && !is_force_save(
                key,
                control,
            ) ==> self.editor@.room_for(key, control),
            _ => true,
        }
    }

    /// The phase after `event`.
    pub open spec fn next_phase(&self, event: InputEvent) -> Phase {
        match self.phase {
            Phase::Editing => match event {
                InputEvent::Key { key, control } => if is_force_save(key, control) {
                    Phase::Finished
                } else if key == Key::Esc {
                    Phase::Confirming
                } else {
                    Phase::Editing
                },
                _ => Phase::Editing,
            },
            Phase::Confirming => if answer(event) is Some {
                Phase::Finished
            } else {
                Phase::Confirming
            },
            Phase::Finished => Phase::Finished,
        }
    }

    /// The save decision after `event`.
    pub open spec fn next_save(&self, event: InputEvent) -> bool {
        match self.phase {
            Phase::Editing => match event {
                InputEvent::Key { key, control } => is_force_save(key, control) || self.save,
                _ => self.save,
            },
            Phase::Confirming => match answer(event) {
                Some(save) => save,
                None => self.save,
            },
            Phase::Finished => self.save,
        }
    }

    /// The editor's state after `event`.
    pub open spec fn next_editor(&self, event: InputEvent) -> EditorView {
        match event {
            InputEvent::Key { key, control } => if self.phase == Phase::Editing && !is_force_save(
                key,
                control,
            ) {
                self.editor@.apply_key(key, control)
            } else {
                self.editor@
            },
            _ => self.editor@,
        }
    }

    /// What the caller does after `event`.
    pub open spec fn action_for(&self, event: InputEvent) -> Action {
        match self.phase {
            Phase::Editing => match event {
                InputEvent::Key { key, control } => if is_force_save(key, control) {
                    Action::Finish
                } else if key == Key::Esc {
                    Action::Prompt
                } else {
                    Action::Redraw
                },
                InputEvent::Resize => Action::Redraw,
                InputEvent::Other => Action::Wait,
            },
            Phase::Confirming => if answer(event) is Some {
                Action::Finish
            } else {
                Action::Wait
            },
            Phase::Finished => Action::Finish,
        }
    }

    /// A session on `editor`, in the editing phase, with nothing to save
    /// yet.
    pub fn new(editor: SkullEditor) -> (session: Session)
        ensures
            session.editor == editor,
            session.phase == Phase::Editing,
            !session.save,
    {
        Session { editor, phase: Phase::Editing, save: false }
    }

    /// Whether the sizes leave room for what `event` does in this phase.
    pub fn has_room_for(&self, event: InputEvent) -> (room: bool)
        requires
            self.editor.wf(),
        ensures
            room == self.room_for(event),
    {
        match event {
            InputEvent::Key { key, control } => {
                if self.phase == Phase::Editing && !force_save(key, control) {
                    self.editor.has_room_for(key, control)
                } else {
                    true
                }
            },
            _ => true,
        }
    }

    /// Takes one event: edits or moves in the editing phase, takes the
    /// answer in the confirming phase, and says what the caller does next.
    pub fn handle(&mut self, event: InputEvent) -> (action: Action)
        requires
            old(self).editor.wf(),
            old(self).room_for(event),
        ensures
            final(self).editor.wf(),
            final(self).editor@ == old(self).next_editor(event),
            final(self).phase == old(self).next_phase(event),
            final(self).save == old(self).next_save(event),
            action == old(self).action_for(event),
    {
        match self.phase {
            Phase::Editing => match event {
                InputEvent::Key { key, control } => {
                    if force_save(key, control) {
                        self.save = true;
                        self.phase = Phase::Finished;
                        Action::Finish
                    } else {
                        self.editor.press(key, control);
                        if key == Key::Esc {
                            self.phase = Phase::Confirming;
                            Action::Prompt
                        } else {
                            Action::Redraw
                        }
                    }
                },
                InputEvent::Resize => Action::Redraw,
                InputEvent::Other => Action::Wait,
            },
            Phase::Confirming => match confirm(event) {
                Some(save) => {
                    self.save = save;
                    self.phase = Phase::Finished;
                    Action::Finish
                },
                None => Action::Wait,
            },
            Phase::Finished => Action::Finish,
        }
    }

    /// Draws a frame of the editor for a terminal of `terminal_height` rows.
    pub fn redraw(&mut self, terminal_height: u16) -> (frame: Frame)
        requires
            old(self).editor.wf(),
        ensures
            final(self).editor.wf(),
            final(self).phase == old(self).phase,
            final(self).save == old(self).save,
            final(self).editor@ == old(self).editor@.refresh(terminal_height as nat),
            final(self).editor@.cursor_visible(),
            frame.scroll == old(self).editor@.scroll_for(terminal_height as nat),
            frame.commands@ == crate::render::frame_commands(final(self).editor@),
    {
        self.editor.redraw(terminal_height)
    }

    /// Ends the session: the save decision and the document as one text.
    pub fn finish(self) -> (result: EditorResult)
        ensures
            result.save == self.save,
            result.content@ == crate::text::join_lines(self.editor@.lines),
    {
        let content = self.editor.content();
        EditorResult { save: self.save, content }
    }
}

/// Whether the key erases.
pub fn erases(key: Key, control: bool) -> (r: bool)
    ensures
        r == is_erase(key, control),
{
    match key {
        Key::Backspace => true,
        Key::Char(c) => control && c == 'h',
        _ => false,
    }
}

/// Whether the key ends the session and saves.
pub fn force_save(key: Key, control: bool) -> (r: bool)
    ensures
        r == is_force_save(key, control),
{
    match key {
        Key::Char(c) => control && c == 's',
        _ => false,
    }
}

/// The answer that `event` gives to the question whether to save.
pub fn confirm(event: InputEvent) -> (r: Option<bool>)
    ensures
        r == answer(event),
{
    match event {
        InputEvent::Key { key: Key::Char(c), control: _ } => {
            if c == 'y' {
                Some(true)
            } else if c == 'n' {
                Some(false)
            } else {
                None
            }
        },
        _ => None,
    }
}

impl SkullEditor {
    /// Whether the sizes leave room for what `key` does.
    pub fn has_room_for(&self, key: Key, control: bool) -> (room: bool)
        requires
            self.wf(),
        ensures
            room == self@.room_for(key, control),
    {
        let limit: usize = usize::MAX / 4;
        if erases(key, control) {
            if self.cursor_column() == 0 && self.cursor_line() > 0 {
                let above = self.line_length(self.cursor_line() - 1);
                let here = self.line_length(self.cursor_line());
                above <= limit && here <= limit - above
            } else {
                true
            }
        } else {
            match key {
                Key::Enter => self.get_height() < usize::MAX,
                Key::Char(_) | Key::Tab => self.line_length(self.cursor_line()) < limit,
                _ => true,
            }
        }
    }

    /// Does what `key` does in the editing phase.
    pub fn press(&mut self, key: Key, control: bool)
        requires
            old(self).wf(),
            old(self)@.room_for(key, control),
        ensures
            final(self).wf(),
            final(self)@ == old(self)@.apply_key(key, control),
    {
        if erases(key, control) {
            self.erase_character();
        } else {
            match key {
                Key::Enter => self.new_line(),
                Key::Left => self.move_cursor_left(),
                Key::Right => self.move_cursor_right(),
                Key::Up => self.move_cursor_up(),
                Key::Down => self.move_cursor_down(),
                Key::Char(c) => self.add_character(c),
                Key::Tab => self.add_character('\t'),
                _ => {},
            }
        }
    }
}

} // verus!
