use skull_editor::session::Key;
use skull_editor::SkullEditor;

fn editor(text: &str) -> SkullEditor {
    SkullEditor::new(String::from(text))
}

fn state(e: &SkullEditor) -> (String, usize, usize) {
    (e.content(), e.cursor_line(), e.cursor_column())
}

#[test]
fn empty_input_opens_as_one_empty_line() {
    let mut e = editor("");
    assert_eq!(e.get_height(), 1);
    assert_eq!(e.get_width(), 0);
    assert_eq!(state(&e), (String::new(), 0, 0));
    assert_eq!(e.view_pos(), 0);
    assert_eq!(e.view_height(), 0);
}

#[test]
fn typing_three_characters_fills_the_line() {
    let mut e = editor("");
    e.add_character('a');
    e.add_character('b');
    e.add_character('c');
    assert_eq!(state(&e), (String::from("abc"), 0, 3));
    assert_eq!(e.get_height(), 1);
}

#[test]
fn characters_enter_at_the_cursor() {
    let mut e = editor("ac");
    e.move_cursor_right();
    e.add_character('b');
    assert_eq!(state(&e), (String::from("abc"), 0, 2));
}

#[test]
fn enter_splits_the_line_at_the_cursor() {
    let mut e = editor("abc");
    e.move_cursor_right();
    e.new_line();
    assert_eq!(state(&e), (String::from("a\nbc"), 1, 0));
    assert_eq!(e.get_height(), 2);
    assert_eq!(e.line_length(0), 1);
    assert_eq!(e.line_length(1), 2);
}

#[test]
fn backspace_at_line_start_joins_and_stands_at_the_seam() {
    let mut e = editor("abc");
    e.move_cursor_right();
    e.new_line();
    e.erase_character();
    assert_eq!(state(&e), (String::from("abc"), 0, 1));
    assert_eq!(e.get_height(), 1);
}

#[test]
fn backspace_removes_the_character_before_the_cursor() {
    let mut e = editor("abc");
    e.move_cursor_right();
    e.move_cursor_right();
    e.erase_character();
    assert_eq!(state(&e), (String::from("ac"), 0, 1));
}

#[test]
fn backspaces_undo_typing() {
    let mut e = editor("one\ntwo\nthree");
    e.move_cursor_down();
    e.move_cursor_right();
    let before = state(&e);
    for c in ['x', '\t', '世', '\n', 'y'] {
        e.add_character(c);
    }
    assert_eq!(e.cursor_column(), 6);
    for _ in 0..5 {
        e.erase_character();
    }
    assert_eq!(state(&e), before);
}

#[test]
fn text_comes_back_without_its_final_line_feed() {
    assert_eq!(editor("a\nb").content(), "a\nb");
    assert_eq!(editor("a\nb\n").content(), "a\nb");
    assert_eq!(editor("\n").content(), "");
    assert_eq!(editor("\n\n").content(), "\n");
    assert_eq!(editor("a\n\nb").content(), "a\n\nb");
    assert_eq!(editor("").content(), "");
}

#[test]
fn line_breaks_divide_the_text() {
    assert_eq!(editor("a\nb\n").get_height(), 2);
    assert_eq!(editor("\n").get_height(), 1);
    assert_eq!(editor("\n\n").get_height(), 2);
    assert_eq!(editor("a\n\nb").get_height(), 3);
}

#[test]
fn carriage_return_before_line_feed_belongs_to_the_break() {
    let e = editor("a\r\nb\r");
    assert_eq!(e.get_height(), 2);
    assert_eq!(e.line_length(0), 1);
    assert_eq!(e.line_length(1), 2);
    assert_eq!(e.content(), "a\nb\r");
    assert_eq!(editor("a\rb\n").content(), "a\rb");
}

#[test]
fn left_and_right_wrap_between_lines() {
    let mut e = editor("ab\ncd");
    e.move_cursor_right();
    e.move_cursor_right();
    assert_eq!((e.cursor_line(), e.cursor_column()), (0, 2));
    e.move_cursor_right();
    assert_eq!((e.cursor_line(), e.cursor_column()), (1, 0));
    e.move_cursor_left();
    assert_eq!((e.cursor_line(), e.cursor_column()), (0, 2));
    e.move_cursor_left();
    assert_eq!((e.cursor_line(), e.cursor_column()), (0, 1));
}

#[test]
fn nothing_moves_beyond_the_document() {
    let mut e = editor("ab\ncd");
    e.move_cursor_left();
    assert_eq!(state(&e), (String::from("ab\ncd"), 0, 0));
    e.erase_character();
    assert_eq!(state(&e), (String::from("ab\ncd"), 0, 0));
    e.move_cursor_down();
    e.move_cursor_right();
    e.move_cursor_right();
    assert_eq!((e.cursor_line(), e.cursor_column()), (1, 2));
    e.move_cursor_right();
    assert_eq!(state(&e), (String::from("ab\ncd"), 1, 2));
}

#[test]
fn up_on_the_first_line_goes_to_its_start() {
    let mut e = editor("abc\ndef");
    e.move_cursor_right();
    e.move_cursor_right();
    e.move_cursor_up();
    assert_eq!((e.cursor_line(), e.cursor_column()), (0, 0));
}

#[test]
fn down_on_the_last_line_goes_to_its_end() {
    let mut e = editor("abc\ndef");
    e.move_cursor_down();
    assert_eq!((e.cursor_line(), e.cursor_column()), (1, 0));
    e.move_cursor_down();
    assert_eq!((e.cursor_line(), e.cursor_column()), (1, 3));
}

#[test]
fn vertical_moves_keep_the_column_on_single_width_lines() {
    let mut e = editor("abcdef\nghijkl\nmn");
    for _ in 0..4 {
        e.move_cursor_right();
    }
    e.move_cursor_down();
    assert_eq!((e.cursor_line(), e.cursor_column()), (1, 4));
    e.move_cursor_up();
    assert_eq!((e.cursor_line(), e.cursor_column()), (0, 4));
    e.move_cursor_down();
    e.move_cursor_down();
    assert_eq!((e.cursor_line(), e.cursor_column()), (2, 2));
}

#[test]
fn vertical_moves_keep_the_display_offset_across_a_tab() {
    let mut e = editor("\tab\nxxxxxx");
    e.move_cursor_right();
    e.move_cursor_right();
    assert_eq!(e.get_cursor_offset(), 5);
    e.move_cursor_down();
    assert_eq!((e.cursor_line(), e.cursor_column()), (1, 5));
    assert_eq!(e.get_cursor_offset(), 5);
    e.move_cursor_up();
    assert_eq!((e.cursor_line(), e.cursor_column()), (0, 2));
}

#[test]
fn a_move_into_a_tab_stops_before_it() {
    let mut e = editor("\tab\nxxxxxx");
    e.move_cursor_down();
    e.move_cursor_right();
    e.move_cursor_right();
    e.move_cursor_up();
    assert_eq!((e.cursor_line(), e.cursor_column()), (0, 0));
}

#[test]
fn widths_of_characters() {
    assert_eq!(SkullEditor::char_width('\t'), 4);
    assert_eq!(SkullEditor::char_width('a'), 1);
    assert_eq!(SkullEditor::char_width(' '), 1);
    assert_eq!(SkullEditor::char_width('世'), 2);
    assert_eq!(SkullEditor::char_width('\u{7}'), 1);
    assert_eq!(SkullEditor::char_width('\u{85}'), 1);
    assert_eq!(SkullEditor::char_width('\u{301}'), 0);
    assert_eq!(SkullEditor::char_width('\u{17D8}'), 3);
    assert_eq!(skull_editor::width::char_width('界'), 2);
}

#[test]
fn a_width_comes_from_the_table_unless_the_character_is_a_tab() {
    assert_eq!(skull_editor::width::width_from_table('\t', Some(1)), 4);
    assert_eq!(skull_editor::width::width_from_table('\t', None), 4);
    assert_eq!(skull_editor::width::width_from_table('a', Some(1)), 1);
    assert_eq!(skull_editor::width::width_from_table('a', Some(2)), 2);
    assert_eq!(skull_editor::width::width_from_table('a', Some(0)), 0);
    assert_eq!(skull_editor::width::width_from_table('\u{7}', None), 1);
}

#[test]
fn cursor_offset_sums_the_widths_before_the_cursor() {
    let mut e = editor("\t世a");
    assert_eq!(e.get_cursor_offset(), 0);
    e.move_cursor_right();
    assert_eq!(e.get_cursor_offset(), 4);
    e.move_cursor_right();
    assert_eq!(e.get_cursor_offset(), 6);
    e.move_cursor_right();
    assert_eq!(e.get_cursor_offset(), 7);
}

#[test]
fn offset_to_cursor_finds_the_column_of_an_offset() {
    let e = editor("\t世a");
    assert_eq!(e.offset_to_cursor(0), 0);
    assert_eq!(e.offset_to_cursor(3), 0);
    assert_eq!(e.offset_to_cursor(4), 1);
    assert_eq!(e.offset_to_cursor(5), 1);
    assert_eq!(e.offset_to_cursor(6), 2);
    assert_eq!(e.offset_to_cursor(7), 3);
    assert_eq!(e.offset_to_cursor(100), 3);
    assert_eq!(editor("").offset_to_cursor(0), 0);
}

#[test]
fn width_helpers_work_on_plain_lines() {
    let line: Vec<char> = "a\tb".chars().collect();
    assert_eq!(skull_editor::width::width_before(&line, 0), 0);
    assert_eq!(skull_editor::width::width_before(&line, 2), 5);
    assert_eq!(skull_editor::width::width_before(&line, 3), 6);
    assert_eq!(skull_editor::width::column_at(&line, 1), 1);
    assert_eq!(skull_editor::width::column_at(&line, 5), 2);
    assert_eq!(skull_editor::width::column_at(&line, 6), 3);
}

#[test]
fn there_is_room_for_ordinary_edits() {
    let mut e = editor("ab\ncd");
    e.move_cursor_down();
    assert!(e.has_room_for(Key::Backspace, false));
    assert!(e.has_room_for(Key::Enter, false));
    assert!(e.has_room_for(Key::Char('x'), false));
    assert!(e.has_room_for(Key::Tab, false));
    assert!(e.has_room_for(Key::Up, false));
}

#[test]
fn keys_do_what_they_stand_for() {
    let mut e = editor("ab");
    e.press(Key::Right, false);
    e.press(Key::Char('x'), false);
    assert_eq!(state(&e), (String::from("axb"), 0, 2));
    e.press(Key::Tab, false);
    assert_eq!(state(&e), (String::from("ax\tb"), 0, 3));
    e.press(Key::Char('h'), true);
    assert_eq!(state(&e), (String::from("axb"), 0, 2));
    e.press(Key::Char('h'), false);
    assert_eq!(state(&e), (String::from("axhb"), 0, 3));
    e.press(Key::Backspace, false);
    e.press(Key::Enter, false);
    assert_eq!(state(&e), (String::from("ax\nb"), 1, 0));
    e.press(Key::Up, false);
    e.press(Key::Down, false);
    e.press(Key::Left, false);
    assert_eq!(state(&e), (String::from("ax\nb"), 0, 2));
    e.press(Key::Other, false);
    e.press(Key::Esc, false);
    assert_eq!(state(&e), (String::from("ax\nb"), 0, 2));
}
