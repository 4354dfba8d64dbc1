//! What the editor writes to the terminal.

use crate::cursor::Point;
use crate::editor::{EditorView, VERSION};
use crate::row::clip;
use crate::terminal::{
    clear_line_sequence, clear_screen_sequence, hide_sequence, move_to_sequence, screen_cell,
    show_sequence, Size,
};
use vstd::prelude::*;

verus! {

/// The end of every line that is written to the terminal: a carriage return
/// before the line feed.
pub open spec fn line_break() -> Seq<char> {
    seq!['\r', '\n']
}

/// `n` spaces: none where `n` is not positive.
pub open spec fn spaces(n: int) -> Seq<char> {
    Seq::new(if n > 0 { n as nat } else { 0 }, |i: int| ' ')
}

/// The title that the welcome banner shows.
pub open spec fn title() -> Seq<char> {
    "Aus6on's Lite editor -- "@ + VERSION@
}

/// The welcome banner on a terminal `width` columns wide: a tilde, then the
/// title with as many spaces before it as centre it, cut off at the width of
/// the terminal.
pub open spec fn welcome_message(width: int) -> Seq<char> {
    let room = if width > title().len() { width - title().len() } else { 0 };
    let banner = seq!['~'] + spaces(room / 2 - 1) + title();
    if width < banner.len() {
        banner.take(width)
    } else {
        banner
    }
}

/// The welcome banner is never wider than the terminal. Where the terminal
/// has room for the tilde and the title, the banner ends with the whole
/// title, and the columns before the title are as many as those that stay
/// free after it, or one fewer.
pub proof fn lemma_welcome_message_is_centred(width: int)
    requires
        0 <= width,
    ensures
        welcome_message(width).len() <= width,
        width >= title().len() + 2 ==> {
            let before = (width - title().len()) / 2;
            let after = width - before - title().len();
            &&& welcome_message(width) == seq!['~'] + spaces(before - 1) + title()
            &&& welcome_message(width).len() == before + title().len()
            &&& before <= after <= before + 1
        },
{
}

/// What of `row` the window shows: its columns from the horizontal offset
/// on, as many as the terminal is wide.
pub open spec fn shown(row: Seq<char>, state: EditorView) -> Seq<char> {
    clip(row, state.offset.x, state.offset.x + state.size.width)
}

/// What stands on line `line` of the screen, the top line being line 0.
///
/// The line is cleared first. It then shows the row of the document that the
/// vertical offset brings there. Where the document has no such row it shows
/// a tilde, or, in the empty document, the welcome banner on the line a third
/// of the way down.
pub open spec fn screen_line(state: EditorView, line: int) -> Seq<char> {
    clear_line_sequence() + (if 0 <= state.offset.y + line < state.rows.len() {
        shown(state.rows[state.offset.y + line], state)
    } else if state.rows.len() == 0 && line == state.size.height / 3 {
        welcome_message(state.size.width as int)
    } else {
        seq!['~']
    }) + line_break()
}

/// The first `count` lines of the screen, one after the other.
pub open spec fn screen_lines(state: EditorView, count: int) -> Seq<char>
    decreases count,
{
    if count <= 0 {
        Seq::empty()
    } else {
        screen_lines(state, count - 1) + screen_line(state, count - 1)
    }
}

/// The number of lines that the editor draws: all of the terminal but the
/// last.
pub open spec fn drawn_lines(size: Size) -> int {
    if size.height > 0 {
        size.height - 1
    } else {
        0
    }
}

/// Where on the screen the cursor stands: as far from the top left cell as
/// the cursor is from the viewport offset.
pub open spec fn cursor_on_screen(state: EditorView) -> Point {
    Point {
        x: if state.cursor.x > state.offset.x { state.cursor.x - state.offset.x } else { 0 },
        y: if state.cursor.y > state.offset.y { state.cursor.y - state.offset.y } else { 0 },
    }
}

/// One frame: everything that is written to the terminal to show `state`.
///
/// The cursor is hidden and sent to the top left cell, the lines are drawn,
/// and the cursor is sent to its place and shown again.
pub open spec fn frame(state: EditorView) -> Seq<char> {
    hide_sequence() + move_to_sequence(0, 0) + screen_lines(state, drawn_lines(state.size))
        + move_to_sequence(
        screen_cell(cursor_on_screen(state).x),
        screen_cell(cursor_on_screen(state).y),
    ) + show_sequence()
}

/// What is written to the terminal when the editor quits: the screen is
/// cleared, and a line says goodbye.
pub open spec fn farewell() -> Seq<char> {
    clear_screen_sequence() + "Goodbye. "@ + line_break()
}

} // verus!
