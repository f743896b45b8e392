//! Parser for the terminal's cursor-position report, the fallback path
//! for learning the screen dimensions: the terminal answers a position
//! query with `ESC [ <rows> ; <cols> R`, and any deviation from that
//! byte protocol is a fatal parse error.

use vstd::prelude::*;
use crate::error::EditorError;

verus! {

/// Whether `b` is an ASCII decimal digit.
pub open spec fn is_digit(b: u8) -> bool {
    48 <= b <= 57
}

/// The first position at or after `i` that does not hold a digit, or
/// the end of `s`.
pub open spec fn digit_run_end(s: Seq<u8>, i: int) -> int
    decreases s.len() - i,
{
    if i < s.len() && is_digit(s[i]) {
        digit_run_end(s, i + 1)
    } else {
        i
    }
}

/// The numeric value of the digits of `s` in `[i, j)`, most significant
/// first.
pub open spec fn digits_value(s: Seq<u8>, i: int, j: int) -> int
    decreases j - i,
{
    if j <= i {
        0
    } else {
        digits_value(s, i, j - 1) * 10 + (s[j - 1] - 48)
    }
}

/// A digit run's end lies between its start and the sequence's end,
/// everything before it is a digit, and it stops only at the end or at
/// a non-digit.
pub proof fn lemma_digit_run_end(s: Seq<u8>, i: int)
    requires
        0 <= i <= s.len(),
    ensures
        i <= digit_run_end(s, i) <= s.len(),
        forall|k: int| i <= k < digit_run_end(s, i) ==> is_digit(s[k]),
        digit_run_end(s, i) == s.len() || !is_digit(s[digit_run_end(s, i)]),
    decreases s.len() - i,
{
    if i < s.len() && is_digit(s[i]) {
        lemma_digit_run_end(s, i + 1);
    }
}

/// The value of a digit run is never negative.
pub proof fn lemma_digits_value_nonneg(s: Seq<u8>, i: int, j: int)
    requires
        forall|k: int| i <= k < j ==> is_digit(s[k]),
    ensures
        digits_value(s, i, j) >= 0,
    decreases j - i,
{
    if j > i {
        lemma_digits_value_nonneg(s, i, j - 1);
    }
}

/// Reading more digits of a run never shrinks its value.
pub proof fn lemma_digits_value_monotonic(s: Seq<u8>, i: int, j1: int, j2: int)
    requires
        i <= j1 <= j2,
        forall|k: int| i <= k < j2 ==> is_digit(s[k]),
    ensures
        digits_value(s, i, j1) <= digits_value(s, i, j2),
    decreases j2 - j1,
{
    if j1 < j2 {
        lemma_digits_value_monotonic(s, i, j1, j2 - 1);
        lemma_digits_value_nonneg(s, i, j2 - 1);
    }
}

/// Whether `s` opens with `ESC [`, then one or more digits, the `;`
/// separator, one or more digits again, and the `R` terminator.
pub open spec fn valid_reply(s: Seq<u8>) -> bool {
    &&& s.len() >= 2
    &&& s[0] == 27
    &&& s[1] == 91
    &&& {
        let e1 = digit_run_end(s, 2);
        &&& e1 > 2
        &&& e1 < s.len()
        &&& s[e1] == 59
        &&& {
            let e2 = digit_run_end(s, e1 + 1);
            &&& e2 > e1 + 1
            &&& e2 < s.len()
            &&& s[e2] == 82
        }
    }
}

/// The row number a valid reply reports.
pub open spec fn reply_row(s: Seq<u8>) -> int {
    digits_value(s, 2, digit_run_end(s, 2))
}

/// The column number a valid reply reports.
pub open spec fn reply_col(s: Seq<u8>) -> int {
    let e1 = digit_run_end(s, 2);
    digits_value(s, e1 + 1, digit_run_end(s, e1 + 1))
}

/// Parses a cursor-position report. Yields the reported row and column
/// exactly when the bytes match the protocol and both numbers fit in
/// sixteen bits; any other input is a parse error. Bytes after the
/// terminator are ignored.
pub fn parse_cursor_position(buf: &Vec<u8>) -> (r: Result<(u16, u16), EditorError>)
    ensures
        (match r {
            Ok(rc) => {
                &&& valid_reply(buf@)
                &&& reply_row(buf@) <= 0xffff
                &&& reply_col(buf@) <= 0xffff
                &&& rc.0 == reply_row(buf@)
                &&& rc.1 == reply_col(buf@)
            },
            Err(e) => {
                &&& e == EditorError::ParseError
                &&& !(valid_reply(buf@) && reply_row(buf@) <= 0xffff && reply_col(buf@)
                    <= 0xffff)
            },
        }),
{
    if buf.len() < 2 {
        return Err(EditorError::ParseError);
    }
    if buf[0] != 27 || buf[1] != 91 {
        return Err(EditorError::ParseError);
    }
    let mut i: usize = 2;
    let mut row: u32 = 0;
    while i < buf.len() && buf[i] >= 48 && buf[i] <= 57
        invariant
            2 <= i <= buf@.len(),
            digit_run_end(buf@, 2) == digit_run_end(buf@, i as int),
            row == digits_value(buf@, 2, i as int),
            row <= 0xffff,
            forall|k: int| 2 <= k < i ==> is_digit(buf@[k]),
        decreases buf@.len() - i,
    {
        let d: u32 = (buf[i] - 48) as u32;
        row = row * 10 + d;
        i = i + 1;
        proof {
            assert(digit_run_end(buf@, i - 1) == digit_run_end(buf@, i as int));
        }
        if row > 0xffff {
            proof {
                lemma_digit_run_end(buf@, i as int);
                lemma_digit_run_end(buf@, 2);
                lemma_digits_value_monotonic(buf@, 2, i as int, digit_run_end(buf@, 2));
            }
            return Err(EditorError::ParseError);
        }
    }
    proof {
        assert(digit_run_end(buf@, i as int) == i as int);
    }
    if i == 2 || i >= buf.len() || buf[i] != 59 {
        return Err(EditorError::ParseError);
    }
    let sep: usize = i;
    let mut j: usize = sep + 1;
    let mut col: u32 = 0;
    while j < buf.len() && buf[j] >= 48 && buf[j] <= 57
        invariant
            sep + 1 <= j <= buf@.len(),
            2 < sep < buf@.len(),
            buf@[0] == 27,
            buf@[1] == 91,
            buf@[sep as int] == 59,
            digit_run_end(buf@, 2) == sep as int,
            row == digits_value(buf@, 2, sep as int),
            row <= 0xffff,
            digit_run_end(buf@, sep + 1) == digit_run_end(buf@, j as int),
            col == digits_value(buf@, sep + 1, j as int),
            col <= 0xffff,
            forall|k: int| sep + 1 <= k < j ==> is_digit(buf@[k]),
        decreases buf@.len() - j,
    {
        let d: u32 = (buf[j] - 48) as u32;
        col = col * 10 + d;
        j = j + 1;
        proof {
            assert(digit_run_end(buf@, j - 1) == digit_run_end(buf@, j as int));
        }
        if col > 0xffff {
            proof {
                lemma_digit_run_end(buf@, j as int);
                lemma_digit_run_end(buf@, sep + 1);
                lemma_digits_value_monotonic(
                    buf@,
                    sep + 1,
                    j as int,
                    digit_run_end(buf@, sep + 1),
                );
            }
            return Err(EditorError::ParseError);
        }
    }
    proof {
        assert(digit_run_end(buf@, j as int) == j as int);
    }
    if j == sep + 1 || j >= buf.len() || buf[j] != 82 {
        return Err(EditorError::ParseError);
    }
    Ok((row as u16, col as u16))
}

} // verus!
