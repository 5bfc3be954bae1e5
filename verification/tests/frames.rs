use skull_editor::model::Scroll;
use skull_editor::render::{count_digits, sum_coordinate, to_coordinate, DrawCommand, Frame};
use skull_editor::session::{confirm, Action, InputEvent, Key, Phase, Session};
use skull_editor::SkullEditor;

fn editor(text: &str) -> SkullEditor {
    SkullEditor::new(String::from(text))
}

fn numbered(lines: usize) -> SkullEditor {
    let mut text = String::new();
    for i in 0..lines {
        if i > 0 {
            text.push('\n');
        }
        text.push('x');
    }
    SkullEditor::new(text)
}

fn key(key: Key) -> InputEvent {
    InputEvent::Key { key, control: false }
}

fn control(c: char) -> InputEvent {
    InputEvent::Key { key: Key::Char(c), control: true }
}

fn last_of(frame: &Frame) -> DrawCommand {
    frame.commands[frame.commands.len() - 1]
}

#[test]
fn a_frame_paints_numbers_lines_and_cursor() {
    let mut e = editor("a\tb\ncd");
    e.move_cursor_right();
    e.move_cursor_right();
    let frame = e.redraw(24);
    assert_eq!(frame.scroll, Scroll::Up);
    assert_eq!(
        frame.commands,
        vec![
            DrawCommand::MoveTo { column: 0, row: 0 },
            DrawCommand::ClearBelow,
            DrawCommand::MoveToColumn(1),
            DrawCommand::LineNumber(1),
            DrawCommand::Space,
            DrawCommand::Glyph('a'),
            DrawCommand::Tab,
            DrawCommand::Glyph('b'),
            DrawCommand::LineBreak,
            DrawCommand::MoveToColumn(1),
            DrawCommand::LineNumber(2),
            DrawCommand::Space,
            DrawCommand::Glyph('c'),
            DrawCommand::Glyph('d'),
            DrawCommand::MoveTo { column: 8, row: 0 },
        ]
    );
    assert_eq!(e.view_height(), 2);
    assert_eq!(e.view_pos(), 0);
}

#[test]
fn an_empty_document_paints_one_numbered_row() {
    let mut e = editor("");
    let frame = e.redraw(10);
    assert_eq!(
        frame.commands,
        vec![
            DrawCommand::MoveTo { column: 0, row: 0 },
            DrawCommand::ClearBelow,
            DrawCommand::MoveToColumn(1),
            DrawCommand::LineNumber(1),
            DrawCommand::Space,
            DrawCommand::MoveTo { column: 3, row: 0 },
        ]
    );
}

#[test]
fn the_gutter_grows_at_powers_of_ten() {
    let mut e = numbered(9);
    let frame = e.redraw(100);
    assert_eq!(frame.commands[2], DrawCommand::MoveToColumn(1));
    assert_eq!(last_of(&frame), DrawCommand::MoveTo { column: 3, row: 0 });

    let mut e = numbered(10);
    let frame = e.redraw(100);
    assert_eq!(frame.commands[2], DrawCommand::MoveToColumn(2));
    assert_eq!(frame.commands[3], DrawCommand::LineNumber(1));
    let n = frame.commands.len();
    assert_eq!(frame.commands[n - 5], DrawCommand::MoveToColumn(1));
    assert_eq!(frame.commands[n - 4], DrawCommand::LineNumber(10));
    assert_eq!(last_of(&frame), DrawCommand::MoveTo { column: 4, row: 0 });

    let mut e = numbered(99);
    assert_eq!(last_of(&e.redraw(100)), DrawCommand::MoveTo { column: 4, row: 0 });
    let mut e = numbered(100);
    assert_eq!(last_of(&e.redraw(100)), DrawCommand::MoveTo { column: 5, row: 0 });
}

#[test]
fn digits_are_counted_in_base_ten() {
    assert_eq!(count_digits(0), 1);
    assert_eq!(count_digits(1), 1);
    assert_eq!(count_digits(9), 1);
    assert_eq!(count_digits(10), 2);
    assert_eq!(count_digits(99), 2);
    assert_eq!(count_digits(100), 3);
    assert_eq!(count_digits(1000), 4);
    assert_eq!(count_digits(usize::MAX), usize::MAX.to_string().len());
}

#[test]
fn coordinates_wrap_at_sixteen_bits() {
    assert_eq!(to_coordinate(0), 0);
    assert_eq!(to_coordinate(65535), 65535);
    assert_eq!(to_coordinate(65536), 0);
    assert_eq!(to_coordinate(65541), 5);
    assert_eq!(sum_coordinate(1, 2, 3), 6);
    assert_eq!(sum_coordinate(65535, 2, 0), 1);
    assert_eq!(sum_coordinate(usize::MAX, 2, usize::MAX), 0);
}

#[test]
fn the_viewport_follows_the_cursor() {
    let mut e = numbered(10);
    assert_eq!(e.redraw(3).scroll, Scroll::Up);
    assert_eq!((e.view_pos(), e.view_height()), (0, 3));
    for _ in 0..5 {
        e.move_cursor_down();
    }
    let frame = e.redraw(3);
    assert_eq!(frame.scroll, Scroll::Keep);
    assert_eq!((e.view_pos(), e.view_height()), (3, 3));
    assert!(e.view_pos() <= e.cursor_line());
    assert!(e.cursor_line() <= e.view_pos() + e.view_height() - 1);
    assert_eq!(frame.commands[3], DrawCommand::LineNumber(4));
    assert_eq!(last_of(&frame), DrawCommand::MoveTo { column: 4, row: 2 });
    for _ in 0..4 {
        e.move_cursor_up();
    }
    e.redraw(3);
    assert_eq!((e.view_pos(), e.cursor_line()), (1, 1));
}

#[test]
fn the_viewport_shrinks_and_grows_with_terminal_and_document() {
    let mut e = numbered(10);
    assert_eq!(e.redraw(0).scroll, Scroll::Up);
    assert_eq!(e.view_height(), 1);
    assert_eq!(e.redraw(50).scroll, Scroll::Up);
    assert_eq!(e.view_height(), 10);
    assert_eq!(e.redraw(4).scroll, Scroll::Down);
    assert_eq!(e.view_height(), 4);
    assert_eq!(e.update_viewport(4), Scroll::Keep);
    assert_eq!(e.draw().len(), 2 + 4 * 4 + 3 + 1);
}

#[test]
fn the_viewport_moves_up_when_the_document_gets_shorter() {
    let mut e = numbered(6);
    for _ in 0..5 {
        e.move_cursor_down();
    }
    e.redraw(3);
    assert_eq!(e.view_pos(), 3);
    e.erase_character();
    e.erase_character();
    assert_eq!(e.get_height(), 5);
    e.redraw(3);
    assert_eq!((e.view_pos(), e.cursor_line()), (2, 4));
}

#[test]
fn forced_save_ends_the_session() {
    let mut s = Session::new(editor("ab"));
    assert_eq!(s.handle(key(Key::Char('x'))), Action::Redraw);
    assert_eq!(s.handle(control('s')), Action::Finish);
    assert_eq!(s.phase, Phase::Finished);
    assert_eq!(s.handle(key(Key::Char('y'))), Action::Finish);
    let result = s.finish();
    assert!(result.save);
    assert_eq!(result.content, "xab");
}

#[test]
fn escape_asks_and_takes_only_yes_or_no() {
    let mut s = Session::new(editor("ab\ncd"));
    assert_eq!(s.handle(key(Key::Enter)), Action::Redraw);
    assert_eq!(s.handle(key(Key::Esc)), Action::Prompt);
    assert_eq!(s.phase, Phase::Confirming);
    assert_eq!(s.handle(key(Key::Char('x'))), Action::Wait);
    assert_eq!(s.handle(InputEvent::Resize), Action::Wait);
    assert_eq!(s.handle(key(Key::Enter)), Action::Wait);
    assert_eq!(s.phase, Phase::Confirming);
    assert_eq!(s.handle(key(Key::Char('y'))), Action::Finish);
    assert_eq!(s.phase, Phase::Finished);
    let result = s.finish();
    assert!(result.save);
    assert_eq!(result.content, "\nab\ncd");
}

#[test]
fn no_is_an_answer_too() {
    let mut s = Session::new(editor("ab"));
    assert_eq!(s.handle(key(Key::Esc)), Action::Prompt);
    assert_eq!(s.handle(key(Key::Char('n'))), Action::Finish);
    let result = s.finish();
    assert!(!result.save);
    assert_eq!(result.content, "ab");
    assert_eq!(confirm(key(Key::Char('y'))), Some(true));
    assert_eq!(confirm(control('n')), Some(false));
    assert_eq!(confirm(key(Key::Esc)), None);
    assert_eq!(confirm(InputEvent::Other), None);
}

#[test]
fn events_in_the_editing_phase() {
    let mut s = Session::new(editor("ab"));
    assert!(s.has_room_for(key(Key::Tab)));
    assert_eq!(s.handle(InputEvent::Resize), Action::Redraw);
    assert_eq!(s.handle(InputEvent::Other), Action::Wait);
    assert_eq!(s.handle(key(Key::Other)), Action::Redraw);
    assert_eq!(s.handle(key(Key::Tab)), Action::Redraw);
    assert_eq!(s.handle(key(Key::Char('s'))), Action::Redraw);
    assert_eq!(s.handle(key(Key::Char('q'))), Action::Redraw);
    assert_eq!(s.handle(control('h')), Action::Redraw);
    assert_eq!(s.handle(key(Key::Right)), Action::Redraw);
    assert_eq!(s.handle(key(Key::Backspace)), Action::Redraw);
    assert_eq!(s.phase, Phase::Editing);
    assert!(!s.save);
    let frame = s.redraw(24);
    assert_eq!(frame.commands[frame.commands.len() - 1], DrawCommand::MoveTo { column: 8, row: 0 });
    assert_eq!(s.finish().content, "\tsb");
}
