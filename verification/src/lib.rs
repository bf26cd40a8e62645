//! A minimal text editor core: a line buffer, a scrollable viewport with a
//! cursor, and a renderer that maps buffer lines onto a fixed character grid.
//!
//! Terminal I/O (raw mode, key events, painting rows) lives outside this
//! library; everything here works on plain values and is verified.

pub mod buffer;
pub mod editor;
pub mod view;
