//! Core of a minimal terminal text viewer: raw-byte input decoding,
//! a viewport/scroll model, and a renderer that builds one frame of
//! escape sequences and text per refresh.
//!
//! Terminal I/O itself (reading bytes, writing frames, switching the
//! terminal in and out of raw mode) lives outside this crate; the logic
//! here works on plain byte sequences and editor state.

pub mod buffer;
pub mod editor;
pub mod error;
pub mod keys;
pub mod reply;
pub mod screen;
