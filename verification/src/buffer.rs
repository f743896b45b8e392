//! The text buffer: the loaded lines, in file order, read-only for
//! this core. A line is held as bytes together with its recorded
//! length, and the buffer may be empty.

use vstd::prelude::*;
use crate::error::EditorError;

verus! {

/// One line of text and its length.
pub struct Erow {
    pub size: u16,
    pub chars: Vec<u8>,
}

impl Erow {
    /// The recorded length matches the actual byte count.
    pub open spec fn wf(&self) -> bool {
        self.size == self.chars@.len()
    }
}

/// An ordered sequence of lines; insertion order is file order.
pub struct TextBuffer {
    pub num_rows: u16,
    pub rows: Vec<Erow>,
}

/// A byte-for-byte copy of `v`.
pub fn copy_bytes(v: &Vec<u8>) -> (r: Vec<u8>)
    ensures
        r@ == v@,
{
    let mut r: Vec<u8> = Vec::new();
    let mut i: usize = 0;
    while i < v.len()
        invariant
            i <= v@.len(),
            r@ == v@.subrange(0, i as int),
        decreases v@.len() - i,
    {
        r.push(v[i]);
        i = i + 1;
        proof {
            assert(r@ =~= v@.subrange(0, i as int));
        }
    }
    proof {
        assert(r@ =~= v@);
    }
    r
}

impl TextBuffer {
    /// The recorded row count matches the actual one and every line is
    /// well formed.
    pub open spec fn wf(&self) -> bool {
        &&& self.num_rows == self.rows@.len()
        &&& forall|i: int| 0 <= i < self.rows@.len() ==> self.rows@[i].wf()
    }

    /// An empty buffer: a valid state, rendered as placeholder rows.
    pub fn new() -> (r: TextBuffer)
        ensures
            r.wf(),
            r.num_rows == 0,
    {
        TextBuffer { num_rows: 0, rows: Vec::new() }
    }

    /// How many lines the buffer holds.
    pub fn line_count(&self) -> (r: u16)
        ensures
            r == self.num_rows,
    {
        self.num_rows
    }

    /// The line at `row`; a row at or past the line count is refused.
    pub fn line_at(&self, row: u16) -> (r: Result<&Erow, EditorError>)
        requires
            self.wf(),
        ensures
            (match r {
                Ok(line) => row < self.num_rows && *line == self.rows@[row as int],
                Err(e) => row >= self.num_rows && e == EditorError::OutOfRange,
            }),
    {
        if row < self.num_rows {
            Ok(&self.rows[row as usize])
        } else {
            Err(EditorError::OutOfRange)
        }
    }

    /// Appends one line as the new last row.
    pub fn append_line(&mut self, chars: Vec<u8>)
        requires
            old(self).wf(),
            old(self).num_rows < 0xffff,
            chars@.len() <= 0xffff,
        ensures
            final(self).wf(),
            final(self).num_rows == old(self).num_rows + 1,
            final(self).rows@.len() == old(self).rows@.len() + 1,
            forall|i: int|
                0 <= i < old(self).rows@.len() ==> final(self).rows@[i] == old(self).rows@[i],
            final(self).rows@[old(self).rows@.len() as int].chars@ == chars@,
            final(self).rows@[old(self).rows@.len() as int].size == chars@.len(),
    {
        let size: u16 = chars.len() as u16;
        self.rows.push(Erow { size, chars });
        self.num_rows = self.num_rows + 1;
    }

    /// Builds a buffer from `lines`, one row per line, in order. Never
    /// fails; an empty `lines` gives an empty buffer.
    pub fn load(lines: &Vec<Vec<u8>>) -> (r: TextBuffer)
        requires
            lines@.len() <= 0xffff,
            forall|i: int| 0 <= i < lines@.len() ==> lines@[i]@.len() <= 0xffff,
        ensures
            r.wf(),
            r.num_rows == lines@.len(),
            r.rows@.len() == lines@.len(),
            forall|i: int|
                0 <= i < lines@.len() ==> r.rows@[i].chars@ == lines@[i]@,
    {
        let mut r = TextBuffer::new();
        let mut i: usize = 0;
        while i < lines.len()
            invariant
                i <= lines@.len(),
                lines@.len() <= 0xffff,
                forall|j: int| 0 <= j < lines@.len() ==> lines@[j]@.len() <= 0xffff,
                r.wf(),
                r.num_rows == i,
                r.rows@.len() == i,
                forall|j: int| 0 <= j < i ==> r.rows@[j].chars@ == lines@[j]@,
            decreases lines@.len() - i,
        {
            let chars = copy_bytes(&lines[i]);
            r.append_line(chars);
            i = i + 1;
        }
        r
    }
}

} // verus!
