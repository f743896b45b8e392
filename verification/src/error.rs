//! Error taxonomy of the viewer core.

use vstd::prelude::*;

verus! {

/// Every failure of the core is one of these; each is fatal to the
/// session that meets it.
#[derive(Clone, Copy, Debug, PartialEq, Eq, Structural)]
pub enum EditorError {
    /// A terminal read, write or attribute operation failed.
    IoError,
    /// A cursor-position reply did not match the expected byte protocol.
    ParseError,
    /// A buffer row index was at or past the line count.
    OutOfRange,
}

} // verus!
