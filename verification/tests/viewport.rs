use teditor::buffer::TextBuffer;
use teditor::editor::{editor_open, init_editor, move_cursor, process_command, scroll_screen,
    EditorConfig};
use teditor::error::EditorError;
use teditor::keys::Command;

fn editor_with_lines(rows: u16, cols: u16, lines: &[&str]) -> EditorConfig {
    let mut editor = init_editor(rows, cols);
    let owned: Vec<Vec<u8>> = lines.iter().map(|l| l.as_bytes().to_vec()).collect();
    editor_open(&mut editor, &owned);
    editor
}

#[test]
fn scroll_keeps_cursor_inside_window() {
    let mut editor = editor_with_lines(10, 40, &["x"; 60]);
    editor.cursor_y = 35;
    editor.cursor_x = 55;
    scroll_screen(&mut editor);
    assert!(editor.row_offset <= editor.cursor_y);
    assert!(editor.cursor_y < editor.row_offset + editor.screen_rows);
    assert!(editor.col_offset <= editor.cursor_x);
    assert!(editor.cursor_x < editor.col_offset + editor.screen_cols);
    assert_eq!(editor.row_offset, 26);
    assert_eq!(editor.col_offset, 16);
}

#[test]
fn scroll_pulls_the_window_back_up() {
    let mut editor = editor_with_lines(10, 40, &["x"; 60]);
    editor.row_offset = 50;
    editor.col_offset = 20;
    editor.cursor_y = 12;
    editor.cursor_x = 3;
    scroll_screen(&mut editor);
    assert_eq!(editor.row_offset, 12);
    assert_eq!(editor.col_offset, 3);
}

#[test]
fn scroll_twice_changes_nothing_more() {
    let mut editor = editor_with_lines(10, 40, &["x"; 60]);
    editor.cursor_y = 35;
    editor.cursor_x = 55;
    scroll_screen(&mut editor);
    let ro = editor.row_offset;
    let co = editor.col_offset;
    scroll_screen(&mut editor);
    assert_eq!(editor.row_offset, ro);
    assert_eq!(editor.col_offset, co);
}

#[test]
fn move_up_at_top_row_is_a_no_op() {
    let mut editor = editor_with_lines(10, 40, &["a", "b", "c"]);
    assert_eq!(editor.cursor_y, 0);
    move_cursor(&mut editor, Command::MoveUp);
    assert_eq!(editor.cursor_y, 0);
}

#[test]
fn move_down_stops_at_the_buffer_end() {
    let mut editor = editor_with_lines(10, 40, &["a", "b", "c"]);
    // Walk to the bottom-most position, one past the last line.
    for _ in 0..5 {
        move_cursor(&mut editor, Command::MoveDown);
    }
    assert_eq!(editor.cursor_y, 3);
    move_cursor(&mut editor, Command::MoveDown);
    assert_eq!(editor.cursor_y, 3);
}

#[test]
fn move_left_at_column_zero_is_a_no_op() {
    let mut editor = editor_with_lines(10, 40, &["abc"]);
    move_cursor(&mut editor, Command::MoveLeft);
    assert_eq!(editor.cursor_x, 0);
}

#[test]
fn move_right_is_unbounded_by_line_content() {
    let mut editor = editor_with_lines(10, 40, &["ab"]);
    for _ in 0..50 {
        move_cursor(&mut editor, Command::MoveRight);
    }
    assert_eq!(editor.cursor_x, 50);
}

#[test]
fn page_and_snap_commands() {
    let mut editor = editor_with_lines(10, 40, &["x"; 60]);
    editor.cursor_y = 7;
    move_cursor(&mut editor, Command::PageUp);
    assert_eq!(editor.cursor_y, 0);
    move_cursor(&mut editor, Command::PageDown);
    assert_eq!(editor.cursor_y, 9);
    move_cursor(&mut editor, Command::Home);
    assert_eq!(editor.cursor_x, 0);
    move_cursor(&mut editor, Command::End);
    assert_eq!(editor.cursor_x, 39);
}

#[test]
fn page_down_clamps_to_a_short_buffer() {
    let mut editor = editor_with_lines(24, 80, &["a", "b"]);
    move_cursor(&mut editor, Command::PageDown);
    assert_eq!(editor.cursor_y, 2);
}

#[test]
fn quit_ends_the_session_and_nothing_else_does() {
    let mut editor = editor_with_lines(10, 40, &["a"]);
    assert!(process_command(&mut editor, Command::Quit));
    assert!(!process_command(&mut editor, Command::MoveDown));
    assert_eq!(editor.cursor_y, 1);
    assert!(!process_command(&mut editor, Command::NoOp));
    assert!(!process_command(&mut editor, Command::Unknown(b'x')));
    assert_eq!(editor.cursor_y, 1);
    assert_eq!(editor.cursor_x, 0);
}

#[test]
fn buffer_load_and_line_lookup() {
    let lines: Vec<Vec<u8>> = vec![b"alpha".to_vec(), b"be".to_vec()];
    let buffer = TextBuffer::load(&lines);
    assert_eq!(buffer.line_count(), 2);
    let first = buffer.line_at(0).unwrap();
    assert_eq!(first.chars, b"alpha".to_vec());
    assert_eq!(first.size, 5);
    let second = buffer.line_at(1).unwrap();
    assert_eq!(second.chars, b"be".to_vec());
    assert_eq!(second.size, 2);
}

#[test]
fn line_lookup_past_the_end_is_out_of_range() {
    let lines: Vec<Vec<u8>> = vec![b"alpha".to_vec()];
    let buffer = TextBuffer::load(&lines);
    assert!(matches!(buffer.line_at(1), Err(EditorError::OutOfRange)));
    let empty = TextBuffer::new();
    assert!(matches!(empty.line_at(0), Err(EditorError::OutOfRange)));
}

#[test]
fn opening_appends_in_file_order() {
    let mut editor = init_editor(5, 20);
    editor_open(&mut editor, &vec![b"one".to_vec()]);
    editor_open(&mut editor, &vec![b"two".to_vec(), b"three".to_vec()]);
    assert_eq!(editor.buffer.line_count(), 3);
    assert_eq!(editor.buffer.line_at(0).unwrap().chars, b"one".to_vec());
    assert_eq!(editor.buffer.line_at(2).unwrap().chars, b"three".to_vec());
}
