//! Input decoding: a state machine that turns the raw byte stream of a
//! terminal in raw mode (including multi-byte escape sequences) into
//! logical navigation commands.
//!
//! One logical keypress is decoded by feeding bytes one at a time into
//! [`decode_step`] until it yields a command; a read timeout hands the
//! machine a zero byte. [`decode_sequence`] runs the same machine over a
//! byte sequence that is already in hand.

use vstd::prelude::*;

verus! {

/// A logical navigation command, produced by the decoder and consumed
/// by the editor controller.
#[derive(Clone, Copy, Debug, PartialEq, Eq, Structural)]
pub enum Command {
    MoveLeft,
    MoveRight,
    MoveUp,
    MoveDown,
    PageUp,
    PageDown,
    Home,
    End,
    Delete,
    Quit,
    /// The read timed out with no input: the caller refreshes and reads again.
    NoOp,
    /// A byte (or escape sequence, reported as the escape byte) with no meaning.
    Unknown(u8),
}

/// The control-key chord of `key`: the byte the terminal sends when the
/// key is pressed together with Ctrl.
pub fn ctrl_key(key: char) -> (r: u32)
    ensures
        r == (key as u32) & 0x1f,
{
    key as u32 & 0x1f
}

/// Whether `key` is an ASCII control character.
pub fn is_cntrl(key: u32) -> (r: bool)
    ensures
        r == (key < 32),
{
    key < 32
}

/// What a lone byte (one that does not open an escape sequence) means.
pub open spec fn spec_classify_byte(b: u8) -> Command {
    if b == 0 {
        Command::NoOp
    } else if b == 0x11 {
        Command::Quit
    } else if b == 104 || b == 68 {
        Command::MoveLeft
    } else if b == 108 || b == 67 {
        Command::MoveRight
    } else if b == 107 || b == 65 {
        Command::MoveUp
    } else if b == 106 || b == 66 {
        Command::MoveDown
    } else {
        Command::Unknown(b)
    }
}

/// Classifies a byte read outside any escape sequence: the zero byte is
/// the timeout sentinel, Ctrl-Q quits, and the vi-style or bare arrow
/// letters move the cursor.
pub fn classify_byte(b: u8) -> (c: Command)
    ensures
        c == spec_classify_byte(b),
{
    if b == 0 {
        Command::NoOp
    } else if is_cntrl(b as u32) && b as u32 == ctrl_key('q') {
        proof {
            assert(113u32 & 0x1f == 0x11) by (bit_vector);
        }
        Command::Quit
    } else {
        proof {
            assert(113u32 & 0x1f == 0x11) by (bit_vector);
        }
        match b {
            104 | 68 => Command::MoveLeft,  // 'h', 'D'
            108 | 67 => Command::MoveRight,  // 'l', 'C'
            107 | 65 => Command::MoveUp,  // 'k', 'A'
            106 | 66 => Command::MoveDown,  // 'j', 'B'
            _ => Command::Unknown(b),
        }
    }
}

/// What the letter that ends a `ESC [` sequence means.
pub open spec fn spec_classify_csi_letter(b: u8) -> Command {
    if b == 65 {
        Command::MoveUp
    } else if b == 66 {
        Command::MoveDown
    } else if b == 67 {
        Command::MoveRight
    } else if b == 68 {
        Command::MoveLeft
    } else if b == 72 {
        Command::Home
    } else if b == 70 {
        Command::End
    } else {
        Command::Unknown(27)
    }
}

/// What the digit of a `ESC [ <digit> ~` sequence means.
pub open spec fn spec_classify_vt_digit(d: u8) -> Command {
    if d == 49 || d == 55 {
        Command::Home
    } else if d == 51 {
        Command::Delete
    } else if d == 52 || d == 56 {
        Command::End
    } else if d == 53 {
        Command::PageUp
    } else if d == 54 {
        Command::PageDown
    } else {
        Command::Unknown(27)
    }
}

/// What the letter that ends a `ESC O` sequence means.
pub open spec fn spec_classify_o_letter(b: u8) -> Command {
    if b == 72 {
        Command::Home
    } else if b == 70 {
        Command::End
    } else {
        Command::Unknown(27)
    }
}

/// Where the decoder stands between two bytes of one keypress.
#[derive(Clone, Copy, Debug, PartialEq, Eq, Structural)]
pub enum DecodeState {
    /// No byte of the keypress seen yet.
    Start,
    /// The escape byte was seen.
    Esc,
    /// The escape byte and one more (the held byte) were seen.
    EscSecond(u8),
    /// `ESC [` and a digit `1`-`9` (the held byte) were seen; a `~` is expected.
    EscDigit(u8),
}

/// What one step of the decoder produced: a finished command, or the
/// state in which to await the next byte.
#[derive(Clone, Copy, Debug, PartialEq, Eq, Structural)]
pub enum DecodeStep {
    Done(Command),
    More(DecodeState),
}

/// The decoder's transition function on one byte.
pub open spec fn spec_decode_step(st: DecodeState, b: u8) -> DecodeStep {
    match st {
        DecodeState::Start => if b == 27 {
            DecodeStep::More(DecodeState::Esc)
        } else {
            DecodeStep::Done(spec_classify_byte(b))
        },
        DecodeState::Esc => DecodeStep::More(DecodeState::EscSecond(b)),
        DecodeState::EscSecond(c1) => if c1 == 91 {
            if 49 <= b && b <= 57 {
                DecodeStep::More(DecodeState::EscDigit(b))
            } else {
                DecodeStep::Done(spec_classify_csi_letter(b))
            }
        } else if c1 == 79 {
            DecodeStep::Done(spec_classify_o_letter(b))
        } else {
            DecodeStep::Done(Command::Unknown(27))
        },
        DecodeState::EscDigit(d) => if b == 126 {
            DecodeStep::Done(spec_classify_vt_digit(d))
        } else {
            DecodeStep::Done(Command::Unknown(27))
        },
    }
}

/// Feeds one byte to the decoder. The caller loops: it reads a byte,
/// calls this, and either delivers the finished command or reads the
/// next byte in the returned state. A keypress needs at most four bytes.
pub fn decode_step(st: DecodeState, b: u8) -> (r: DecodeStep)
    ensures
        r == spec_decode_step(st, b),
{
    match st {
        DecodeState::Start => {
            if b == 27 {
                DecodeStep::More(DecodeState::Esc)
            } else {
                DecodeStep::Done(classify_byte(b))
            }
        }
        DecodeState::Esc => DecodeStep::More(DecodeState::EscSecond(b)),
        DecodeState::EscSecond(c1) => {
            if c1 == 91 {  // '['
                if b > 48 && b <= 57 {  // '1'..='9'
                    DecodeStep::More(DecodeState::EscDigit(b))
                } else {
                    let c = match b {
                        65 => Command::MoveUp,  // 'A'
                        66 => Command::MoveDown,  // 'B'
                        67 => Command::MoveRight,  // 'C'
                        68 => Command::MoveLeft,  // 'D'
                        72 => Command::Home,  // 'H'
                        70 => Command::End,  // 'F'
                        _ => Command::Unknown(27),
                    };
                    DecodeStep::Done(c)
                }
            } else if c1 == 79 {  // 'O'
                let c = match b {
                    72 => Command::Home,  // 'H'
                    70 => Command::End,  // 'F'
                    _ => Command::Unknown(27),
                };
                DecodeStep::Done(c)
            } else {
                DecodeStep::Done(Command::Unknown(27))
            }
        }
        DecodeState::EscDigit(d) => {
            if b == 126 {  // '~'
                let c = match d {
                    49 | 55 => Command::Home,  // '1', '7'
                    51 => Command::Delete,  // '3'
                    52 | 56 => Command::End,  // '4', '8'
                    53 => Command::PageUp,  // '5'
                    54 => Command::PageDown,  // '6'
                    _ => Command::Unknown(27),
                };
                DecodeStep::Done(c)
            } else {
                DecodeStep::Done(Command::Unknown(27))
            }
        }
    }
}

/// The byte at `i`, or zero past the end: a missing byte reads as the
/// timeout sentinel, exactly as a timed-out terminal read does.
pub open spec fn spec_byte_at(s: Seq<u8>, i: int) -> u8 {
    if 0 <= i < s.len() {
        s[i]
    } else {
        0
    }
}

/// The command reached by running the decoder from `st` on the bytes of
/// `s` at `i` and after, missing bytes reading as zero. Four steps
/// always finish the machine.
pub open spec fn decode_from(st: DecodeState, s: Seq<u8>, i: int) -> Command
    decreases 4 - i,
{
    if i >= 4 {
        Command::Unknown(27)
    } else {
        match spec_decode_step(st, spec_byte_at(s, i)) {
            DecodeStep::Done(c) => c,
            DecodeStep::More(next) => decode_from(next, s, i + 1),
        }
    }
}

/// The command that a whole byte sequence decodes to, bytes past the
/// end reading as zero (the timeout sentinel).
pub open spec fn spec_decode_sequence(s: Seq<u8>) -> Command {
    decode_from(DecodeState::Start, s, 0)
}

/// Decodes one keypress from a byte sequence already in hand, reading
/// missing trailing bytes as zero (the timeout sentinel).
pub fn decode_sequence(bytes: &Vec<u8>) -> (c: Command)
    ensures
        c == spec_decode_sequence(bytes@),
{
    let mut st = DecodeState::Start;
    let mut i: usize = 0;
    loop
        invariant
            i <= 3,
            decode_from(st, bytes@, i as int) == spec_decode_sequence(bytes@),
        decreases 4 - i,
    {
        let b = if i < bytes.len() {
            bytes[i]
        } else {
            0
        };
        match decode_step(st, b) {
            DecodeStep::Done(c) => {
                return c;
            }
            DecodeStep::More(next) => {
                if i >= 3 {
                    proof {
                        assert(decode_from(st, bytes@, i as int) == decode_from(
                            next,
                            bytes@,
                            i as int + 1,
                        ));
                        assert(decode_from(next, bytes@, 4) == Command::Unknown(27));
                    }
                    return Command::Unknown(27);
                }
                st = next;
                i = i + 1;
            }
        }
    }
}

} // verus!
