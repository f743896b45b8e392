use teditor::error::EditorError;
use teditor::reply::parse_cursor_position;

#[test]
fn well_formed_reply_yields_row_and_column() {
    let buf = b"\x1b[24;80R".to_vec();
    assert_eq!(parse_cursor_position(&buf), Ok((24, 80)));
}

#[test]
fn reply_with_trailing_bytes_is_accepted() {
    // The read buffer is zero-padded past the terminator.
    let mut buf = b"\x1b[5;7R".to_vec();
    buf.extend([0u8; 8]);
    assert_eq!(parse_cursor_position(&buf), Ok((5, 7)));
}

#[test]
fn reply_missing_the_escape_prefix_is_an_error() {
    let buf = b"24;80R".to_vec();
    assert_eq!(parse_cursor_position(&buf), Err(EditorError::ParseError));
    let bracket_only = b"[24;80R".to_vec();
    assert_eq!(parse_cursor_position(&bracket_only), Err(EditorError::ParseError));
}

#[test]
fn reply_missing_the_separator_is_an_error() {
    let buf = b"\x1b[2480R".to_vec();
    assert_eq!(parse_cursor_position(&buf), Err(EditorError::ParseError));
}

#[test]
fn reply_missing_the_terminator_is_an_error() {
    let buf = b"\x1b[24;80".to_vec();
    assert_eq!(parse_cursor_position(&buf), Err(EditorError::ParseError));
    let wrong = b"\x1b[24;80X".to_vec();
    assert_eq!(parse_cursor_position(&wrong), Err(EditorError::ParseError));
}

#[test]
fn reply_with_an_empty_number_is_an_error() {
    assert_eq!(parse_cursor_position(&b"\x1b[;80R".to_vec()), Err(EditorError::ParseError));
    assert_eq!(parse_cursor_position(&b"\x1b[24;R".to_vec()), Err(EditorError::ParseError));
}

#[test]
fn reply_with_an_oversized_number_is_an_error() {
    assert_eq!(parse_cursor_position(&b"\x1b[99999;80R".to_vec()), Err(EditorError::ParseError));
    assert_eq!(parse_cursor_position(&b"\x1b[24;70000R".to_vec()), Err(EditorError::ParseError));
}

#[test]
fn leading_zeros_are_plain_digits() {
    assert_eq!(parse_cursor_position(&b"\x1b[0024;0080R".to_vec()), Ok((24, 80)));
}

#[test]
fn empty_and_tiny_inputs_are_errors() {
    assert_eq!(parse_cursor_position(&Vec::new()), Err(EditorError::ParseError));
    assert_eq!(parse_cursor_position(&b"\x1b".to_vec()), Err(EditorError::ParseError));
}
