//! The screen buffer: one frame's worth of text and escape sequences,
//! accumulated in memory so a refresh can be flushed to the terminal in
//! a single write. The flush itself is terminal I/O and happens outside
//! this crate; here the frame is only built, byte for byte.

use vstd::prelude::*;

verus! {

/// Clear the whole screen: `ESC [ 2 J`.
pub open spec fn clear_screen_seq() -> Seq<u8> {
    seq![27u8, 91u8, 50u8, 74u8]
}

/// Clear from the cursor to the end of the line: `ESC [ K`.
pub open spec fn clear_line_seq() -> Seq<u8> {
    seq![27u8, 91u8, 75u8]
}

/// Hide the cursor: `ESC [ ? 2 5 l`.
pub open spec fn hide_cursor_seq() -> Seq<u8> {
    seq![27u8, 91u8, 63u8, 50u8, 53u8, 108u8]
}

/// Show the cursor: `ESC [ ? 2 5 h`.
pub open spec fn show_cursor_seq() -> Seq<u8> {
    seq![27u8, 91u8, 63u8, 50u8, 53u8, 104u8]
}

/// The decimal digits of `n`, most significant first.
pub open spec fn dec_digits(n: nat) -> Seq<u8>
    decreases n,
{
    if n < 10 {
        seq![(48 + n) as u8]
    } else {
        dec_digits(n / 10).push((48 + n % 10) as u8)
    }
}

/// Set the cursor to 1-indexed `row`, `col`: `ESC [ row ; col H`.
pub open spec fn cursor_position_seq(row: u16, col: u16) -> Seq<u8> {
    seq![27u8, 91u8] + dec_digits(row as nat) + seq![59u8] + dec_digits(col as nat) + seq![72u8]
}

/// The in-memory accumulator for one frame.
pub struct ScreenBuffer {
    pub to_print: Vec<u8>,
}

impl ScreenBuffer {
    /// An empty accumulator.
    pub fn new() -> (r: ScreenBuffer)
        ensures
            r.to_print@.len() == 0,
    {
        ScreenBuffer { to_print: Vec::new() }
    }

    /// Appends one byte.
    pub fn push_byte(&mut self, b: u8)
        ensures
            final(self).to_print@ == old(self).to_print@.push(b),
    {
        self.to_print.push(b);
    }

    /// Appends all of `s`.
    pub fn append(&mut self, s: &Vec<u8>)
        ensures
            final(self).to_print@ == old(self).to_print@ + s@,
    {
        self.append_range(s, 0, s.len());
        proof {
            assert(s@.subrange(0, s@.len() as int) =~= s@);
        }
    }

    /// Appends the bytes of `s` from `start` up to `end`.
    pub fn append_range(&mut self, s: &Vec<u8>, start: usize, end: usize)
        requires
            start <= end <= s@.len(),
        ensures
            final(self).to_print@ == old(self).to_print@ + s@.subrange(
                start as int,
                end as int,
            ),
    {
        let mut i: usize = start;
        while i < end
            invariant
                start <= i <= end <= s@.len(),
                self.to_print@ == old(self).to_print@ + s@.subrange(start as int, i as int),
            decreases end - i,
        {
            self.to_print.push(s[i]);
            i = i + 1;
            proof {
                assert(old(self).to_print@ + s@.subrange(start as int, i - 1).push(
                    s@[i - 1],
                ) =~= old(self).to_print@ + s@.subrange(start as int, i as int));
            }
        }
    }

    /// Empties the accumulator, as a flush does once the frame is written.
    pub fn clear(&mut self)
        ensures
            final(self).to_print@.len() == 0,
    {
        self.to_print.clear();
    }

    /// The frame accumulated so far.
    pub fn contents(&self) -> (r: &Vec<u8>)
        ensures
            r@ == self.to_print@,
    {
        &self.to_print
    }
}

/// Appends the clear-screen sequence.
pub fn append_clear_screen(sb: &mut ScreenBuffer)
    ensures
        final(sb).to_print@ == old(sb).to_print@ + clear_screen_seq(),
{
    sb.push_byte(27);
    sb.push_byte(91);
    sb.push_byte(50);
    sb.push_byte(74);
    proof {
        assert(sb.to_print@ =~= old(sb).to_print@ + clear_screen_seq());
    }
}

/// Appends the clear-to-end-of-line sequence.
pub fn append_clear_line(sb: &mut ScreenBuffer)
    ensures
        final(sb).to_print@ == old(sb).to_print@ + clear_line_seq(),
{
    sb.push_byte(27);
    sb.push_byte(91);
    sb.push_byte(75);
    proof {
        assert(sb.to_print@ =~= old(sb).to_print@ + clear_line_seq());
    }
}

/// Appends the show- or hide-cursor sequence.
pub fn toggle_cursor(sb: &mut ScreenBuffer, show: bool)
    ensures
        final(sb).to_print@ == old(sb).to_print@ + (if show {
            show_cursor_seq()
        } else {
            hide_cursor_seq()
        }),
{
    sb.push_byte(27);
    sb.push_byte(91);
    sb.push_byte(63);
    sb.push_byte(50);
    sb.push_byte(53);
    if show {
        sb.push_byte(104);
        proof {
            assert(sb.to_print@ =~= old(sb).to_print@ + show_cursor_seq());
        }
    } else {
        sb.push_byte(108);
        proof {
            assert(sb.to_print@ =~= old(sb).to_print@ + hide_cursor_seq());
        }
    }
}

/// Appends the decimal digits of `n`.
pub fn append_number(sb: &mut ScreenBuffer, n: u16)
    ensures
        final(sb).to_print@ == old(sb).to_print@ + dec_digits(n as nat),
    decreases n,
{
    if n < 10 {
        sb.push_byte(48 + n as u8);
        proof {
            assert(sb.to_print@ =~= old(sb).to_print@ + dec_digits(n as nat));
        }
    } else {
        append_number(sb, n / 10);
        sb.push_byte(48 + (n % 10) as u8);
        proof {
            assert(sb.to_print@ =~= old(sb).to_print@ + dec_digits(n as nat));
        }
    }
}

/// Appends the set-cursor-position sequence for 1-indexed `row`, `col`.
pub fn set_cursor_position(sb: &mut ScreenBuffer, row: u16, col: u16)
    ensures
        final(sb).to_print@ == old(sb).to_print@ + cursor_position_seq(row, col),
{
    sb.push_byte(27);
    sb.push_byte(91);
    append_number(sb, row);
    sb.push_byte(59);
    append_number(sb, col);
    sb.push_byte(72);
    proof {
        assert(sb.to_print@ =~= old(sb).to_print@ + cursor_position_seq(row, col));
    }
}

/// Appends a clear of the whole screen followed by a move of the cursor
/// home: what every exit path, normal or fatal, leaves on the terminal.
pub fn clear_and_reset_cursor(sb: &mut ScreenBuffer)
    ensures
        final(sb).to_print@ == old(sb).to_print@ + clear_screen_seq() + cursor_position_seq(1, 1),
{
    append_clear_screen(sb);
    set_cursor_position(sb, 1, 1);
}

} // verus!
