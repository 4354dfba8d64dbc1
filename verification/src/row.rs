//! One line of text and its horizontally clipped rendering.

use vstd::prelude::*;
use vstd::string::*;

verus! {

/// The part of `text` whose column indices lie in `[start, end)`.
///
/// Both ends are clamped to the length of `text`, and a range that ends
/// before it starts is empty.
pub open spec fn clip(text: Seq<char>, start: int, end: int) -> Seq<char> {
    let stop = if end < text.len() { end } else { text.len() as int };
    let first = if start < stop { start } else { stop };
    if 0 <= first {
        text.subrange(first, stop)
    } else {
        Seq::empty()
    }
}

/// A clipped window never holds more columns than were asked for, and every
/// column it holds is the column of the text at the same distance from
/// `start`.
pub proof fn lemma_clip_columns(text: Seq<char>, start: int, end: int)
    requires
        0 <= start,
    ensures
        clip(text, start, end).len() <= text.len(),
        start <= end ==> clip(text, start, end).len() <= end - start,
        start >= text.len() || start >= end ==> clip(text, start, end).len() == 0,
        start <= end <= text.len() ==> clip(text, start, end).len() == end - start,
        forall|i: int|
            0 <= i < clip(text, start, end).len() ==> clip(text, start, end)[i] == text[start + i],
{
}

/// Rendering a text from its first column to its length gives the text back.
pub proof fn lemma_clip_whole(text: Seq<char>, end: int)
    requires
        end >= text.len(),
    ensures
        clip(text, 0, end) == text,
{
    assert(text.subrange(0, text.len() as int) =~= text);
}

/// One line of a document.
pub struct Row {
    string: String,
}

impl View for Row {
    type V = Seq<char>;

    closed spec fn view(&self) -> Seq<char> {
        self.string@
    }
}

impl Row {
    /// A row that holds the characters of `text`, all of them, as given.
    pub fn from(text: &str) -> (row: Row)
        ensures
            row@ == text@,
    {
        Row { string: text.to_owned() }
    }

    /// A row that holds the characters of `string`.
    pub(crate) fn from_string(string: String) -> (row: Row)
        ensures
            row@ == string@,
    {
        Row { string }
    }

    /// The number of characters in the row.
    pub fn len(&self) -> (n: usize)
        ensures
            n == self@.len(),
    {
        self.string.as_str().unicode_len()
    }

    /// The characters of the row in the columns `[start, end)`.
    pub fn render(&self, start: usize, end: usize) -> (s: String)
        ensures
            s@ == clip(self@, start as int, end as int),
            self@.len() <= usize::MAX,
    {
        let text = self.string.as_str();
        let length = text.unicode_len();
        let stop = if end < length { end } else { length };
        let first = if start < stop { start } else { stop };
        text.substring_char(first, stop).to_owned()
    }
}

} // verus!
