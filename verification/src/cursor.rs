//! Where the keys take the cursor.
//!
//! The cursor is a place in the document: a row, or the line after the last
//! row, and a column within that row or at its end. Every key keeps it there.

use crate::document::line_length;
use crate::editor::Key;
use vstd::prelude::*;

verus! {

/// A column and a row as mathematics sees them: what a `Position` stands for.
pub struct Point {
    pub x: int,
    pub y: int,
}

/// The first column of the first row.
pub open spec fn origin() -> Point {
    Point { x: 0, y: 0 }
}

/// Whether `cursor` is a place in `rows`: on a row or on the line after the
/// last one, and within that row or at its end.
pub open spec fn within_document(cursor: Point, rows: Seq<Seq<char>>) -> bool {
    &&& 0 <= cursor.y <= rows.len()
    &&& 0 <= cursor.x <= line_length(rows, cursor.y)
}

/// Whether `key` moves the cursor.
pub open spec fn is_movement(key: Key) -> bool {
    key is Up || key is Down || key is Left || key is Right || key is PageUp || key is PageDown
        || key is Home || key is End
}

/// Where `key` takes the cursor, before the column is fitted to the row that
/// the cursor lands on. `page` is the number of rows that a page key jumps.
pub open spec fn shifted(cursor: Point, key: Key, rows: Seq<Seq<char>>, page: int) -> Point {
    match key {
        Key::Up => Point { x: cursor.x, y: if cursor.y > 0 { cursor.y - 1 } else { 0 } },
        Key::Down => Point {
            x: cursor.x,
            y: if cursor.y + 1 < rows.len() { cursor.y + 1 } else { rows.len() as int },
        },
        Key::Left => if cursor.x > 0 {
            Point { x: cursor.x - 1, y: cursor.y }
        } else if cursor.y > 0 {
            Point { x: line_length(rows, cursor.y - 1), y: cursor.y - 1 }
        } else {
            cursor
        },
        Key::Right => if cursor.x < line_length(rows, cursor.y) {
            Point { x: cursor.x + 1, y: cursor.y }
        } else if cursor.y < rows.len() {
            Point { x: 0, y: cursor.y + 1 }
        } else {
            cursor
        },
        Key::PageUp => Point { x: cursor.x, y: if cursor.y > page { cursor.y - page } else { 0 } },
        Key::PageDown => Point {
            x: cursor.x,
            y: if cursor.y + page < rows.len() { cursor.y + page } else { rows.len() as int },
        },
        Key::Home => Point { x: 0, y: cursor.y },
        Key::End => Point { x: line_length(rows, cursor.y), y: cursor.y },
        _ => cursor,
    }
}

/// `cursor` with its column brought back to the end of its row where it lies
/// beyond it. A row that does not exist has length 0.
pub open spec fn fitted(cursor: Point, rows: Seq<Seq<char>>) -> Point {
    Point {
        x: if cursor.x > line_length(rows, cursor.y) {
            line_length(rows, cursor.y)
        } else {
            cursor.x
        },
        y: cursor.y,
    }
}

/// The cursor after `key`. No column is remembered from one row to the next:
/// the cursor keeps its column where the new row is long enough, and stands at
/// the end of the row where it is not.
pub open spec fn moved(cursor: Point, key: Key, rows: Seq<Seq<char>>, page: int) -> Point {
    fitted(shifted(cursor, key, rows, page), rows)
}

/// A cursor in the document is still in it after any key.
pub proof fn lemma_moved_within_document(
    cursor: Point,
    key: Key,
    rows: Seq<Seq<char>>,
    page: int,
)
    requires
        within_document(cursor, rows),
        0 <= page,
    ensures
        within_document(moved(cursor, key, rows, page), rows),
{
}

/// The cursor after each of `keys` in turn, from the first column of the
/// first row.
pub open spec fn moved_by_all(keys: Seq<Key>, rows: Seq<Seq<char>>, page: int) -> Point
    decreases keys.len(),
{
    if keys.len() == 0 {
        origin()
    } else {
        moved(moved_by_all(keys.drop_last(), rows, page), keys.last(), rows, page)
    }
}

/// Every place that keys can take the cursor to, from the first column of the
/// first row, is in the document.
pub proof fn lemma_reachable_within_document(keys: Seq<Key>, rows: Seq<Seq<char>>, page: int)
    requires
        0 <= page,
    ensures
        within_document(moved_by_all(keys, rows, page), rows),
    decreases keys.len(),
{
    if keys.len() > 0 {
        lemma_reachable_within_document(keys.drop_last(), rows, page);
        lemma_moved_within_document(
            moved_by_all(keys.drop_last(), rows, page),
            keys.last(),
            rows,
            page,
        );
    }
}

/// Left at the first column of the first row moves nothing.
pub proof fn lemma_left_at_origin_stays(rows: Seq<Seq<char>>, page: int)
    ensures
        moved(origin(), Key::Left, rows, page) == origin(),
{
}

/// Right on the line after the last row moves nothing.
pub proof fn lemma_right_at_end_stays(cursor: Point, rows: Seq<Seq<char>>, page: int)
    requires
        within_document(cursor, rows),
        cursor.y == rows.len(),
    ensures
        moved(cursor, Key::Right, rows, page) == cursor,
{
}

} // verus!
