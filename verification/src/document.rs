//! The rows of a text, and how a text is cut into them.

use crate::row::Row;
use vstd::prelude::*;
use vstd::std_specs::iter::IteratorSpec;
use vstd::string::*;

verus! {

/// The number of characters of `text` before its first line feed: the length
/// of `text` where it holds none.
pub open spec fn line_end(text: Seq<char>) -> nat
    decreases text.len(),
{
    if text.len() == 0 || text[0] == '\n' {
        0
    } else {
        (1 + line_end(text.drop_first())) as nat
    }
}

/// `line` without the carriage return that ends it, if one does.
pub open spec fn without_carriage_return(line: Seq<char>) -> Seq<char> {
    if line.len() > 0 && line.last() == '\r' {
        line.drop_last()
    } else {
        line
    }
}

/// The lines of `text`.
///
/// A line ends at a line feed, or at a carriage return directly followed by a
/// line feed; neither belongs to the line. What follows the last line feed is
/// a line of its own, kept as it is, unless it is empty: a text that ends in a
/// line feed has no empty last line, and the empty text has no line at all.
pub open spec fn lines(text: Seq<char>) -> Seq<Seq<char>>
    decreases text.len(),
{
    let end = line_end(text) as int;
    if text.len() == 0 {
        Seq::empty()
    } else if end >= text.len() {
        seq![text]
    } else {
        seq![without_carriage_return(text.take(end))] + lines(text.skip(end + 1))
    }
}

/// `line_end` is the one position that has no line feed before it and is
/// either a line feed or the end of the text.
pub proof fn lemma_line_end(text: Seq<char>, end: int)
    requires
        0 <= end <= text.len(),
        forall|i: int| 0 <= i < end ==> text[i] != '\n',
        end < text.len() ==> text[end] == '\n',
    ensures
        line_end(text) == end,
    decreases text.len(),
{
    if end > 0 {
        let rest = text.drop_first();
        assert forall|i: int| 0 <= i < end - 1 implies rest[i] != '\n' by {
            assert(rest[i] == text[i + 1]);
        }
        lemma_line_end(rest, end - 1);
    }
}

/// No line feed stands before `line_end`, and one stands at it unless it is
/// the end of the text.
pub proof fn lemma_line_end_bounds(text: Seq<char>)
    ensures
        line_end(text) <= text.len(),
        forall|i: int| 0 <= i < line_end(text) ==> text[i] != '\n',
        line_end(text) < text.len() ==> text[line_end(text) as int] == '\n',
    decreases text.len(),
{
    if !(text.len() == 0 || text[0] == '\n') {
        let rest = text.drop_first();
        lemma_line_end_bounds(rest);
        assert forall|i: int| 0 <= i < line_end(text) implies text[i] != '\n' by {
            if i > 0 {
                assert(rest[i - 1] == text[i]);
            }
        }
    }
}

/// No line of a text holds a line feed.
pub proof fn lemma_lines_hold_no_line_feed(text: Seq<char>)
    ensures
        forall|k: int, i: int|
            0 <= k < lines(text).len() && 0 <= i < lines(text)[k].len() ==> lines(text)[k][i]
                != '\n',
    decreases text.len(),
{
    let end = line_end(text) as int;
    lemma_line_end_bounds(text);
    if text.len() != 0 && end < text.len() {
        let rest = text.skip(end + 1);
        lemma_lines_hold_no_line_feed(rest);
        let first = without_carriage_return(text.take(end));
        assert forall|k: int, i: int|
            0 <= k < lines(text).len() && 0 <= i < lines(text)[k].len() implies lines(text)[k][i]
            != '\n' by {
            if k == 0 {
                assert(lines(text)[0] == first);
                assert(first[i] == text[i]);
            } else {
                assert(lines(text)[k] == lines(rest)[k - 1]);
            }
        }
    }
}

/// A text that is not empty and holds no line feed is one line: itself.
pub proof fn lemma_lines_of_one_line(text: Seq<char>)
    requires
        text.len() > 0,
        forall|i: int| 0 <= i < text.len() ==> text[i] != '\n',
    ensures
        lines(text) == seq![text],
{
    lemma_line_end(text, text.len() as int);
}

/// A line feed at the end of a text that is one line adds no empty row
/// after it.
pub proof fn lemma_last_line_feed_adds_no_row(line: Seq<char>)
    requires
        forall|i: int| 0 <= i < line.len() ==> line[i] != '\n',
    ensures
        lines(line.push('\n')) == seq![without_carriage_return(line)],
{
    let text = line.push('\n');
    let end = line.len() as int;
    lemma_line_end(text, end);
    assert(text.take(end) =~= line);
    assert(text.skip(end + 1) =~= Seq::<char>::empty());
    assert(lines(text.skip(end + 1)) =~= Seq::<Seq<char>>::empty());
    assert(lines(text) =~= seq![without_carriage_return(line)]);
}

/// The length of row `y` of `rows`, and 0 where there is no such row.
pub open spec fn line_length(rows: Seq<Seq<char>>, y: int) -> int {
    if 0 <= y < rows.len() {
        rows[y].len() as int
    } else {
        0
    }
}

/// The rows of a text, in order. It does not change once it is made.
pub struct Document {
    rows: Vec<Row>,
}

impl View for Document {
    type V = Seq<Seq<char>>;

    closed spec fn view(&self) -> Seq<Seq<char>> {
        Seq::new(self.rows@.len(), |i: int| self.rows@[i]@)
    }
}

impl Default for Document {
    /// The document without rows.
    fn default() -> (document: Document)
        ensures
            document@ == Seq::<Seq<char>>::empty(),
    {
        let document = Document { rows: Vec::new() };
        assert(document@ =~= Seq::<Seq<char>>::empty());
        document
    }
}

impl Document {
    /// The document whose rows are the lines of `content`.
    pub fn open(content: &str) -> (document: Document)
        ensures
            document@ == lines(content@),
    {
        let ghost text = content@;
        let mut rows: Vec<Row> = Vec::new();
        let mut line = String::new();
        // A carriage return was read last and is not in `line` yet: it belongs
        // to the line unless a line feed follows it.
        let mut held_back = false;
        let mut begun = false;
        let mut chars = content.chars();
        let ghost mut start: int = 0;
        let ghost mut at: int = 0;
        let ghost mut done: Seq<Seq<char>> = Seq::empty();
        proof {
            assert(text.skip(0) =~= text);
        }
        loop
            invariant
                0 <= start <= at <= text.len(),
                chars.remaining() == text.skip(at),
                forall|i: int| start <= i < at ==> text[i] != '\n',
                begun == (start < at),
                held_back ==> start < at && text[at - 1] == '\r' && line@ == text.subrange(
                    start,
                    at - 1,
                ),
                !held_back ==> line@ == text.subrange(start, at),
                !held_back && start < at ==> text[at - 1] != '\r',
                done.len() == rows@.len(),
                forall|k: int| 0 <= k < done.len() ==> done[k] == rows@[k]@,
                lines(text) == done + lines(text.skip(start)),
            ensures
                lines(text.skip(start)) == if begun {
                    seq![text.subrange(start, at)]
                } else {
                    Seq::empty()
                },
            decreases text.len() - at,
        {
            let ghost rest = text.skip(start);
            match chars.next() {
                None => {
                    proof {
                        if start < at {
                            assert forall|i: int| 0 <= i < rest.len() implies rest[i] != '\n' by {
                                assert(rest[i] == text[start + i]);
                            }
                            lemma_lines_of_one_line(rest);
                            assert(rest =~= text.subrange(start, at));
                        } else {
                            assert(lines(rest) =~= Seq::<Seq<char>>::empty());
                        }
                    }
                    break ;
                },
                Some(c) => {
                    proof {
                        assert(text.skip(at)[0] == text[at]);
                        assert(text.skip(at).drop_first() =~= text.skip(at + 1));
                    }
                    if c == '\n' {
                        proof {
                            assert forall|i: int| 0 <= i < at - start implies rest[i] != '\n' by {
                                assert(rest[i] == text[start + i]);
                            }
                            assert(rest[at - start] == text[at]);
                            lemma_line_end(rest, at - start);
                            assert(rest.take(at - start) =~= text.subrange(start, at));
                            assert(rest.skip(at - start + 1) =~= text.skip(at + 1));
                            if held_back {
                                assert(text.subrange(start, at).drop_last() =~= text.subrange(
                                    start,
                                    at - 1,
                                ));
                            }
                            assert(line@ == without_carriage_return(text.subrange(start, at)));
                            done = done.push(line@);
                            assert(lines(text) =~= done + lines(text.skip(at + 1)));
                        }
                        rows.push(Row::from_string(line));
                        line = String::new();
                        held_back = false;
                        begun = false;
                        proof {
                            at = at + 1;
                            start = at;
                            assert(text.subrange(start, at) =~= Seq::<char>::empty());
                        }
                    } else {
                        if held_back {
                            line.push('\r');
                            proof {
                                assert(text.subrange(start, at - 1).push('\r') =~= text.subrange(
                                    start,
                                    at,
                                ));
                            }
                        }
                        if c == '\r' {
                            held_back = true;
                        } else {
                            line.push(c);
                            held_back = false;
                            proof {
                                assert(text.subrange(start, at).push(c) =~= text.subrange(
                                    start,
                                    at + 1,
                                ));
                            }
                        }
                        begun = true;
                        proof {
                            at = at + 1;
                        }
                    }
                },
            }
        }
        if begun {
            if held_back {
                line.push('\r');
                proof {
                    assert(text.subrange(start, at - 1).push('\r') =~= text.subrange(start, at));
                }
            }
            proof {
                done = done.push(line@);
            }
            rows.push(Row::from_string(line));
        }
        let document = Document { rows };
        assert(document@ =~= done);
        assert(done =~= lines(text));
        document
    }

    /// The row at `index`, if the document has one there.
    pub fn row(&self, index: usize) -> (row: Option<&Row>)
        ensures
            index < self@.len() ==> row.is_some() && row.unwrap()@ == self@[index as int],
            index >= self@.len() ==> row.is_none(),
            self@.len() <= usize::MAX,
    {
        if index < self.rows.len() {
            Some(&self.rows[index])
        } else {
            None
        }
    }

    /// Whether the document has no rows.
    pub fn is_empty(&self) -> (empty: bool)
        ensures
            empty == (self@.len() == 0),
    {
        self.rows.len() == 0
    }

    /// The number of rows.
    pub fn len(&self) -> (n: usize)
        ensures
            n == self@.len(),
    {
        self.rows.len()
    }
}

/// `String::push` of std. Not proved: that it appends the character to the
/// string and leaves what was there before in place.
pub assume_specification[ String::push ](s: &mut String, ch: char)
    ensures
        final(s)@ == old(s)@.push(ch),
;

} // verus!
