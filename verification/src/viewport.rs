//! How the viewport follows the cursor.
//!
//! The viewport offset is the place in the document that the top left cell of
//! the terminal shows. A scroll brings it after the cursor, by one page at a
//! time.

use crate::cursor::Point;
use crate::terminal::Size;
use vstd::prelude::*;

verus! {

/// The viewport offset along one axis after a scroll. `extent` is the size of
/// the terminal along that axis.
///
/// A cursor before the offset pulls the offset back to itself. A cursor more
/// than `extent` beyond the offset pushes it on by one page, `extent + 1`,
/// however far beyond the cursor is.
pub open spec fn scrolled_along(cursor: int, offset: int, extent: int) -> int {
    if cursor < offset {
        cursor
    } else if cursor > offset + extent {
        offset + extent + 1
    } else {
        offset
    }
}

/// The viewport offset after a scroll.
pub open spec fn scrolled(cursor: Point, offset: Point, size: Size) -> Point {
    Point {
        x: scrolled_along(cursor.x, offset.x, size.width as int),
        y: scrolled_along(cursor.y, offset.y, size.height as int),
    }
}

/// Whether the cursor lies in the window that begins at `offset`, its last
/// cell along each axis being the one at the distance of the terminal's size.
pub open spec fn visible(cursor: Point, offset: Point, size: Size) -> bool {
    &&& offset.x <= cursor.x <= offset.x + size.width
    &&& offset.y <= cursor.y <= offset.y + size.height
}

/// Whether the cursor lies at most one page beyond the window that begins at
/// `offset`: what one scroll can make up for.
pub open spec fn within_a_page(cursor: Point, offset: Point, size: Size) -> bool {
    &&& cursor.x <= offset.x + 2 * size.width + 1
    &&& cursor.y <= offset.y + 2 * size.height + 1
}

/// After a scroll the offset is never beyond the cursor, and the cursor is in
/// the window exactly if it was at most one page beyond it.
pub proof fn lemma_scrolled_window(cursor: Point, offset: Point, size: Size)
    ensures
        scrolled(cursor, offset, size).x <= cursor.x,
        scrolled(cursor, offset, size).y <= cursor.y,
        visible(cursor, scrolled(cursor, offset, size), size) <==> within_a_page(
            cursor,
            offset,
            size,
        ),
{
}

/// A second scroll with the cursor unmoved leaves the offset of the first,
/// where the cursor was at most one page beyond the window.
pub proof fn lemma_scroll_twice(cursor: Point, offset: Point, size: Size)
    requires
        within_a_page(cursor, offset, size),
    ensures
        scrolled(cursor, scrolled(cursor, offset, size), size) == scrolled(cursor, offset, size),
{
}

/// A second scroll moves the offset again where the cursor was more than one
/// page beyond the window.
pub proof fn lemma_scroll_twice_far(cursor: Point, offset: Point, size: Size)
    requires
        !within_a_page(cursor, offset, size),
    ensures
        scrolled(cursor, scrolled(cursor, offset, size), size) != scrolled(cursor, offset, size),
{
}

} // verus!
