//! The cursor, viewport and rendering engine of a small terminal text viewer.
//!
//! A [`Document`] is an ordered list of [`Row`]s. An [`Editor`] keeps a cursor
//! in document coordinates and a viewport offset, moves the cursor in answer to
//! key presses, scrolls the viewport after it, and renders the visible window
//! as the text to be written to the terminal.

pub mod cursor;
pub mod document;
pub mod editor;
pub mod row;
pub mod screen;
pub mod terminal;
pub mod viewport;

pub use document::Document;
pub use editor::{Editor, Position};
pub use row::Row;
pub use terminal::Terminal;
