//! Editor state and the per-refresh cycle: the viewport/scroll model
//! that keeps the cursor inside the visible window, cursor movement
//! with its clamping policy, and the renderer that builds one whole
//! frame into a [`ScreenBuffer`].
//!
//! The bounding policy for movement: the logical column is unbounded
//! (the cursor may pass a line's end), while the row is clamped to the
//! buffer length, the position just past the last line included.

use vstd::prelude::*;
use crate::buffer::Erow;
use crate::buffer::TextBuffer;
use crate::keys::Command;
use crate::screen::ScreenBuffer;
use crate::screen::clear_line_seq;
use crate::screen::cursor_position_seq;
use crate::screen::hide_cursor_seq;
use crate::screen::show_cursor_seq;
use crate::screen::set_cursor_position;
use crate::screen::toggle_cursor;
use crate::screen::append_clear_line;

verus! {

/// The whole editor state: screen dimensions, cursor, buffer and
/// viewport offsets.
pub struct EditorConfig {
    pub screen_rows: u16,
    pub screen_cols: u16,
    pub cursor_x: u16,
    pub cursor_y: u16,
    pub buffer: TextBuffer,
    pub row_offset: u16,
    pub col_offset: u16,
}

impl EditorConfig {
    /// The screen has at least one row and one column, the buffer is
    /// well formed, and the cursor row is within the buffer, the
    /// position just past the last line included.
    pub open spec fn wf(&self) -> bool {
        &&& self.screen_rows >= 1
        &&& self.screen_cols >= 1
        &&& self.buffer.wf()
        &&& self.cursor_y <= self.buffer.num_rows
    }
}

/// A fresh editor on a screen of the given dimensions: cursor at the
/// origin, no lines loaded, no scroll.
pub fn init_editor(screen_rows: u16, screen_cols: u16) -> (r: EditorConfig)
    requires
        screen_rows >= 1,
        screen_cols >= 1,
    ensures
        r.wf(),
        r.screen_rows == screen_rows,
        r.screen_cols == screen_cols,
        r.cursor_x == 0,
        r.cursor_y == 0,
        r.buffer.num_rows == 0,
        r.row_offset == 0,
        r.col_offset == 0,
{
    EditorConfig {
        screen_rows,
        screen_cols,
        cursor_x: 0,
        cursor_y: 0,
        buffer: TextBuffer::new(),
        row_offset: 0,
        col_offset: 0,
    }
}

/// Appends `lines` to the buffer, one row per line, in order; the rest
/// of the editor state is untouched.
pub fn editor_open(editor: &mut EditorConfig, lines: &Vec<Vec<u8>>)
    requires
        old(editor).wf(),
        old(editor).buffer.rows@.len() + lines@.len() <= 0xffff,
        forall|i: int| 0 <= i < lines@.len() ==> lines@[i]@.len() <= 0xffff,
    ensures
        final(editor).wf(),
        final(editor).buffer.rows@.len() == old(editor).buffer.rows@.len() + lines@.len(),
        final(editor).buffer.num_rows == old(editor).buffer.rows@.len() + lines@.len(),
        forall|i: int|
            0 <= i < old(editor).buffer.rows@.len()
                ==> final(editor).buffer.rows@[i] == old(editor).buffer.rows@[i],
        forall|i: int|
            0 <= i < lines@.len()
                ==> final(editor).buffer.rows@[old(editor).buffer.rows@.len() + i].chars@
                    == lines@[i]@,
        final(editor).screen_rows == old(editor).screen_rows,
        final(editor).screen_cols == old(editor).screen_cols,
        final(editor).cursor_x == old(editor).cursor_x,
        final(editor).cursor_y == old(editor).cursor_y,
        final(editor).row_offset == old(editor).row_offset,
        final(editor).col_offset == old(editor).col_offset,
{
    let mut i: usize = 0;
    while i < lines.len()
        invariant
            i <= lines@.len(),
            old(editor).buffer.rows@.len() + lines@.len() <= 0xffff,
            forall|j: int| 0 <= j < lines@.len() ==> lines@[j]@.len() <= 0xffff,
            editor.wf(),
            editor.buffer.rows@.len() == old(editor).buffer.rows@.len() + i,
            editor.buffer.num_rows == old(editor).buffer.rows@.len() + i,
            forall|j: int|
                0 <= j < old(editor).buffer.rows@.len() ==> editor.buffer.rows@[j] == old(
                    editor,
                ).buffer.rows@[j],
            forall|j: int|
                0 <= j < i ==> editor.buffer.rows@[old(editor).buffer.rows@.len() + j].chars@
                    == lines@[j]@,
            editor.screen_rows == old(editor).screen_rows,
            editor.screen_cols == old(editor).screen_cols,
            editor.cursor_x == old(editor).cursor_x,
            editor.cursor_y == old(editor).cursor_y,
            editor.row_offset == old(editor).row_offset,
            editor.col_offset == old(editor).col_offset,
        decreases lines@.len() - i,
    {
        let chars = crate::buffer::copy_bytes(&lines[i]);
        editor.buffer.append_line(chars);
        i = i + 1;
    }
}

/// The offset after one scroll pass on one axis: pulled back to the
/// cursor when the cursor is above the window, pushed forward until the
/// cursor is the last visible position when it is below, and otherwise
/// left alone.
pub open spec fn scrolled_offset(cursor: int, offset: int, extent: int) -> int {
    if cursor < offset {
        cursor
    } else if cursor >= offset + extent {
        cursor - extent + 1
    } else {
        offset
    }
}

/// After scrolling, the cursor lies inside the window on that axis.
pub proof fn lemma_scroll_in_window(cursor: int, offset: int, extent: int)
    requires
        extent >= 1,
    ensures
        scrolled_offset(cursor, offset, extent) <= cursor < scrolled_offset(
            cursor,
            offset,
            extent,
        ) + extent,
{
}

/// Scrolling is idempotent: a second pass with the same cursor and
/// extent moves the offset no further.
pub proof fn lemma_scroll_idempotent(cursor: int, offset: int, extent: int)
    requires
        extent >= 1,
    ensures
        scrolled_offset(cursor, scrolled_offset(cursor, offset, extent), extent)
            == scrolled_offset(cursor, offset, extent),
{
}

/// One scroll pass before rendering: adjusts the two offsets so the
/// cursor lies within the visible window; never moves the cursor.
pub fn scroll_screen(editor: &mut EditorConfig)
    requires
        old(editor).wf(),
    ensures
        final(editor).row_offset == scrolled_offset(
            old(editor).cursor_y as int,
            old(editor).row_offset as int,
            old(editor).screen_rows as int,
        ),
        final(editor).col_offset == scrolled_offset(
            old(editor).cursor_x as int,
            old(editor).col_offset as int,
            old(editor).screen_cols as int,
        ),
        final(editor).row_offset <= final(editor).cursor_y,
        final(editor).cursor_y < final(editor).row_offset + final(editor).screen_rows,
        final(editor).col_offset <= final(editor).cursor_x,
        final(editor).cursor_x < final(editor).col_offset + final(editor).screen_cols,
        final(editor).cursor_x == old(editor).cursor_x,
        final(editor).cursor_y == old(editor).cursor_y,
        final(editor).screen_rows == old(editor).screen_rows,
        final(editor).screen_cols == old(editor).screen_cols,
        final(editor).buffer == old(editor).buffer,
        final(editor).wf(),
{
    if editor.cursor_y < editor.row_offset {
        editor.row_offset = editor.cursor_y;
    }
    if editor.cursor_y as u32 >= editor.row_offset as u32 + editor.screen_rows as u32 {
        editor.row_offset = editor.cursor_y - editor.screen_rows + 1;
    }
    if editor.cursor_x < editor.col_offset {
        editor.col_offset = editor.cursor_x;
    }
    if editor.cursor_x as u32 >= editor.col_offset as u32 + editor.screen_cols as u32 {
        editor.col_offset = editor.cursor_x - editor.screen_cols + 1;
    }
}

/// The cursor column after `cmd`.
pub open spec fn moved_cursor_x(e: EditorConfig, cmd: Command) -> int {
    match cmd {
        Command::MoveLeft => if e.cursor_x > 0 {
            e.cursor_x - 1
        } else {
            0
        },
        Command::MoveRight => e.cursor_x + 1,
        Command::Home => 0,
        Command::End => e.screen_cols - 1,
        _ => e.cursor_x as int,
    }
}

/// The cursor row after `cmd`.
pub open spec fn moved_cursor_y(e: EditorConfig, cmd: Command) -> int {
    match cmd {
        Command::MoveUp => if e.cursor_y > 0 {
            e.cursor_y - 1
        } else {
            0
        },
        Command::MoveDown => if e.cursor_y < e.buffer.num_rows {
            e.cursor_y + 1
        } else {
            e.cursor_y as int
        },
        Command::PageUp => 0,
        Command::PageDown => if e.screen_rows - 1 <= e.buffer.num_rows {
            e.screen_rows - 1
        } else {
            e.buffer.num_rows as int
        },
        _ => e.cursor_y as int,
    }
}

/// Applies one movement command to the cursor. Left and up stop at
/// zero, down stops at the buffer length, the column is otherwise
/// unbounded; page and home/end keys snap.
pub fn move_cursor(editor: &mut EditorConfig, key: Command)
    requires
        old(editor).wf(),
        key == Command::MoveRight ==> old(editor).cursor_x < 0xffff,
    ensures
        final(editor).cursor_x == moved_cursor_x(*old(editor), key),
        final(editor).cursor_y == moved_cursor_y(*old(editor), key),
        final(editor).screen_rows == old(editor).screen_rows,
        final(editor).screen_cols == old(editor).screen_cols,
        final(editor).buffer == old(editor).buffer,
        final(editor).row_offset == old(editor).row_offset,
        final(editor).col_offset == old(editor).col_offset,
        final(editor).wf(),
        old(editor).cursor_y == 0 && key == Command::MoveUp ==> final(editor).cursor_y == 0,
        old(editor).cursor_y == old(editor).buffer.num_rows && key == Command::MoveDown
            ==> final(editor).cursor_y == old(editor).cursor_y,
        old(editor).cursor_x == 0 && key == Command::MoveLeft ==> final(editor).cursor_x == 0,
{
    match key {
        Command::MoveLeft => {
            if editor.cursor_x > 0 {
                editor.cursor_x = editor.cursor_x - 1;
            }
        }
        Command::MoveRight => {
            editor.cursor_x = editor.cursor_x + 1;
        }
        Command::MoveUp => {
            if editor.cursor_y > 0 {
                editor.cursor_y = editor.cursor_y - 1;
            }
        }
        Command::MoveDown => {
            if editor.cursor_y < editor.buffer.num_rows {
                editor.cursor_y = editor.cursor_y + 1;
            }
        }
        Command::PageUp => {
            editor.cursor_y = 0;
        }
        Command::PageDown => {
            // The snap to the bottom of the screen is clamped to the
            // buffer length, keeping the row bound of `wf`.
            let snap = editor.screen_rows - 1;
            editor.cursor_y = if snap <= editor.buffer.num_rows {
                snap
            } else {
                editor.buffer.num_rows
            };
        }
        Command::Home => {
            editor.cursor_x = 0;
        }
        Command::End => {
            editor.cursor_x = editor.screen_cols - 1;
        }
        _ => {}
    }
}

/// Applies one decoded command: reports whether the session ends, and
/// otherwise moves the cursor. `NoOp` and `Unknown` change nothing.
pub fn process_command(editor: &mut EditorConfig, cmd: Command) -> (quit: bool)
    requires
        old(editor).wf(),
        cmd == Command::MoveRight ==> old(editor).cursor_x < 0xffff,
    ensures
        quit == (cmd == Command::Quit),
        final(editor).cursor_x == moved_cursor_x(*old(editor), cmd),
        final(editor).cursor_y == moved_cursor_y(*old(editor), cmd),
        final(editor).screen_rows == old(editor).screen_rows,
        final(editor).screen_cols == old(editor).screen_cols,
        final(editor).buffer == old(editor).buffer,
        final(editor).row_offset == old(editor).row_offset,
        final(editor).col_offset == old(editor).col_offset,
        final(editor).wf(),
{
    if cmd == Command::Quit {
        true
    } else {
        move_cursor(editor, cmd);
        false
    }
}

/// The version banner shown on an empty buffer.
pub open spec fn welcome_text() -> Seq<u8> {
    seq![
        84u8, 101u8, 100u8, 105u8, 116u8, 111u8, 114u8, 32u8, 45u8, 45u8, 32u8, 118u8, 101u8,
        114u8, 115u8, 105u8, 111u8, 110u8, 32u8, 48u8, 46u8, 48u8, 46u8, 49u8,
    ]
}

/// The banner as bytes: `Teditor -- version 0.0.1`.
pub fn welcome_bytes() -> (r: Vec<u8>)
    ensures
        r@ == welcome_text(),
{
    let mut r: Vec<u8> = Vec::new();
    r.push(84);
    r.push(101);
    r.push(100);
    r.push(105);
    r.push(116);
    r.push(111);
    r.push(114);
    r.push(32);
    r.push(45);
    r.push(45);
    r.push(32);
    r.push(118);
    r.push(101);
    r.push(114);
    r.push(115);
    r.push(105);
    r.push(111);
    r.push(110);
    r.push(32);
    r.push(48);
    r.push(46);
    r.push(48);
    r.push(46);
    r.push(49);
    proof {
        assert(r@ =~= welcome_text());
    }
    r
}

/// `n` spaces.
pub open spec fn spaces(n: nat) -> Seq<u8>
    decreases n,
{
    if n == 0 {
        Seq::empty()
    } else {
        spaces((n - 1) as nat).push(32u8)
    }
}

/// Appends `n` spaces.
pub fn append_spaces(sb: &mut ScreenBuffer, n: usize)
    ensures
        final(sb).to_print@ == old(sb).to_print@ + spaces(n as nat),
{
    let mut i: usize = 0;
    while i < n
        invariant
            i <= n,
            sb.to_print@ == old(sb).to_print@ + spaces(i as nat),
        decreases n - i,
    {
        sb.push_byte(32);
        i = i + 1;
        proof {
            assert(sb.to_print@ =~= old(sb).to_print@ + spaces(i as nat));
        }
    }
}

/// The banner row on a screen `cols` wide: the banner truncated to the
/// width, or centered behind a placeholder glyph and spaces.
pub open spec fn welcome_row(cols: int) -> Seq<u8> {
    let w = welcome_text();
    if w.len() > cols {
        w.subrange(0, cols)
    } else {
        let padding = (cols - w.len()) / 2;
        if padding > 0 {
            seq![126u8] + spaces((padding - 1) as nat) + w
        } else {
            w
        }
    }
}

/// Appends the banner row for a screen `cols` wide.
pub fn append_welcome_row(sb: &mut ScreenBuffer, cols: u16)
    ensures
        final(sb).to_print@ == old(sb).to_print@ + welcome_row(cols as int),
{
    let w = welcome_bytes();
    if w.len() > cols as usize {
        sb.append_range(&w, 0, cols as usize);
    } else {
        let padding: usize = (cols as usize - w.len()) / 2;
        if padding > 0 {
            sb.push_byte(126);
            append_spaces(sb, padding - 1);
            sb.append(&w);
            proof {
                assert(sb.to_print@ =~= old(sb).to_print@ + welcome_row(cols as int));
            }
        } else {
            sb.append(&w);
        }
    }
}

/// What of `line` is visible at horizontal offset `col_offset` on a
/// screen `cols` wide: the slice from the offset, truncated to the
/// width, empty when the offset is past the line's end.
pub open spec fn visible_row(line: Seq<u8>, col_offset: int, cols: int) -> Seq<u8> {
    if col_offset >= line.len() {
        Seq::empty()
    } else if line.len() - col_offset > cols {
        line.subrange(col_offset, col_offset + cols)
    } else {
        line.subrange(col_offset, line.len() as int)
    }
}

/// What screen row `y` shows: a slice of the buffer line it maps to, a
/// placeholder glyph past the buffer's end, or, on an empty buffer at
/// one third of the screen height, the version banner.
pub open spec fn row_content(e: EditorConfig, y: int) -> Seq<u8> {
    let file_row = y + e.row_offset;
    if file_row >= e.buffer.num_rows {
        if e.buffer.num_rows == 0 && y == e.screen_rows as int / 3 {
            welcome_row(e.screen_cols as int)
        } else {
            seq![126u8]
        }
    } else {
        visible_row(e.buffer.rows@[file_row].chars@, e.col_offset as int, e.screen_cols as int)
    }
}

/// Carriage return and line feed, emitted between screen rows.
pub open spec fn crlf_seq() -> Seq<u8> {
    seq![13u8, 10u8]
}

/// The first `n` screen rows of a frame: each row's content, a
/// clear-to-end-of-line after every row, and a line break between rows
/// but not after the last.
pub open spec fn drawn_rows(e: EditorConfig, n: int) -> Seq<u8>
    decreases n,
{
    if n <= 0 {
        Seq::empty()
    } else {
        drawn_rows(e, n - 1) + row_content(e, n - 1) + clear_line_seq() + (if n - 1 < e.screen_rows
            - 1 {
            crlf_seq()
        } else {
            Seq::empty()
        })
    }
}

/// Renders every visible screen row into the frame accumulator.
pub fn editor_draw_rows(sb: &mut ScreenBuffer, editor: &EditorConfig)
    requires
        editor.wf(),
    ensures
        final(sb).to_print@ == old(sb).to_print@ + drawn_rows(*editor, editor.screen_rows as int),
{
    let mut y: u16 = 0;
    while y < editor.screen_rows
        invariant
            editor.wf(),
            y <= editor.screen_rows,
            sb.to_print@ == old(sb).to_print@ + drawn_rows(*editor, y as int),
        decreases editor.screen_rows - y,
    {
        let ghost pre = sb.to_print@;
        let file_row: u32 = y as u32 + editor.row_offset as u32;
        if file_row >= editor.buffer.num_rows as u32 {
            if editor.buffer.num_rows == 0 && y == editor.screen_rows / 3 {
                append_welcome_row(sb, editor.screen_cols);
            } else {
                sb.push_byte(126);
                proof {
                    assert(sb.to_print@ =~= pre + seq![126u8]);
                }
            }
        } else {
            let line: &Erow = &editor.buffer.rows[file_row as usize];
            let co = editor.col_offset as usize;
            if co >= line.chars.len() {
                proof {
                    assert(sb.to_print@ =~= pre + row_content(*editor, y as int));
                }
            } else {
                let end: usize = if line.chars.len() - co > editor.screen_cols as usize {
                    co + editor.screen_cols as usize
                } else {
                    line.chars.len()
                };
                sb.append_range(&line.chars, co, end);
            }
        }
        append_clear_line(sb);
        if y < editor.screen_rows - 1 {
            sb.push_byte(13);
            sb.push_byte(10);
        }
        proof {
            assert(sb.to_print@ =~= old(sb).to_print@ + drawn_rows(*editor, y as int + 1));
        }
        y = y + 1;
    }
}

/// One whole frame for the already-scrolled state `e`: hide the cursor,
/// go home, draw every row, put the cursor at its window position, show
/// it again.
pub open spec fn refresh_frame(e: EditorConfig) -> Seq<u8> {
    hide_cursor_seq() + cursor_position_seq(1, 1) + drawn_rows(e, e.screen_rows as int)
        + cursor_position_seq(
        ((e.cursor_y - e.row_offset) + 1) as u16,
        ((e.cursor_x - e.col_offset) + 1) as u16,
    ) + show_cursor_seq()
}

/// One refresh: scrolls the viewport, then appends one whole frame to
/// the accumulator, so the caller can flush it in a single write.
pub fn editor_refresh_screen(editor: &mut EditorConfig, sb: &mut ScreenBuffer)
    requires
        old(editor).wf(),
    ensures
        final(editor).row_offset == scrolled_offset(
            old(editor).cursor_y as int,
            old(editor).row_offset as int,
            old(editor).screen_rows as int,
        ),
        final(editor).col_offset == scrolled_offset(
            old(editor).cursor_x as int,
            old(editor).col_offset as int,
            old(editor).screen_cols as int,
        ),
        final(editor).cursor_x == old(editor).cursor_x,
        final(editor).cursor_y == old(editor).cursor_y,
        final(editor).screen_rows == old(editor).screen_rows,
        final(editor).screen_cols == old(editor).screen_cols,
        final(editor).buffer == old(editor).buffer,
        final(editor).wf(),
        final(sb).to_print@ == old(sb).to_print@ + refresh_frame(*final(editor)),
{
    scroll_screen(editor);
    toggle_cursor(sb, false);
    set_cursor_position(sb, 1, 1);
    editor_draw_rows(sb, editor);
    let crow: u16 = (editor.cursor_y - editor.row_offset) + 1;
    let ccol: u16 = (editor.cursor_x - editor.col_offset) + 1;
    set_cursor_position(sb, crow, ccol);
    toggle_cursor(sb, true);
    proof {
        assert(sb.to_print@ =~= old(sb).to_print@ + refresh_frame(*editor));
    }
}

} // verus!
