//! The editor: a cursor in a document, a viewport that follows it, and the
//! picture of both on the terminal.

use crate::cursor::{
    is_movement, lemma_moved_within_document, moved, origin, within_document, Point,
};
use crate::document::{line_length, Document};
use crate::row::Row;
use crate::screen::{
    farewell, frame, line_break, screen_line, screen_lines, drawn_lines, shown, spaces,
    welcome_message,
};
use crate::terminal::{Size, Terminal};
use crate::viewport::{lemma_scroll_twice, scrolled, visible, within_a_page};
use vstd::prelude::*;
use vstd::string::*;

verus! {

/// The version that the welcome banner shows.
pub const VERSION: &'static str = "INDEV_0429";

/// A column `x` and a row `y`, both counted from 0.
///
/// The cursor is a position in the document. The viewport offset is the
/// position in the document that the top left cell of the terminal shows.
#[derive(Clone, Copy, Debug, PartialEq, Eq, Structural)]
pub struct Position {
    pub x: usize,
    pub y: usize,
}

impl View for Position {
    type V = Point;

    open spec fn view(&self) -> Point {
        Point { x: self.x as int, y: self.y as int }
    }
}

impl Default for Position {
    /// The first column of the first row.
    fn default() -> (position: Position)
        ensures
            position@ == origin(),
    {
        Position { x: 0, y: 0 }
    }
}

/// A key as the editor tells keys apart.
#[derive(Clone, Copy, Debug, PartialEq, Eq, Structural)]
pub enum Key {
    Char(char),
    Up,
    Down,
    Left,
    Right,
    PageUp,
    PageDown,
    Home,
    End,
    /// Any key that the editor has no use for.
    Other,
}

/// What an editor holds, as mathematics sees it.
pub struct EditorView {
    /// Whether the editor has been asked to quit.
    pub should_quit: bool,
    /// The size of the terminal.
    pub size: Size,
    /// The cursor, in the document.
    pub cursor: Point,
    /// The place in the document that the top left cell of the terminal shows.
    pub offset: Point,
    /// The rows of the document.
    pub rows: Seq<Seq<char>>,
}

/// The editor after a cursor key: the cursor has moved, nothing else has
/// changed. A page is as many rows as the terminal is high.
pub open spec fn after_move(state: EditorView, key: Key) -> EditorView {
    EditorView {
        cursor: moved(state.cursor, key, state.rows, state.size.height as int),
        ..state
    }
}

/// The editor after a scroll: the offset has followed the cursor, nothing
/// else has changed.
pub open spec fn after_scroll(state: EditorView) -> EditorView {
    EditorView { offset: scrolled(state.cursor, state.offset, state.size), ..state }
}

/// The editor after a key press. `q` asks it to quit. A key that moves the
/// cursor moves it, and the viewport scrolls after it. Any other key changes
/// nothing.
pub open spec fn after_key(state: EditorView, key: Key) -> EditorView {
    if key == Key::Char('q') {
        EditorView { should_quit: true, ..state }
    } else if is_movement(key) {
        after_scroll(after_move(state, key))
    } else {
        state
    }
}

/// The editor one step of its loop after `state`, where the step began with
/// the press of `key`. An editor that was asked to quit stays as it is.
pub open spec fn after_step(state: EditorView, key: Key) -> EditorView {
    if state.should_quit {
        state
    } else {
        after_key(state, key)
    }
}

/// Every key keeps the cursor in the document, and so does every step.
pub proof fn lemma_key_keeps_cursor_within_document(state: EditorView, key: Key)
    requires
        within_document(state.cursor, state.rows),
    ensures
        within_document(after_move(state, key).cursor, after_move(state, key).rows),
        within_document(after_key(state, key).cursor, after_key(state, key).rows),
        within_document(after_step(state, key).cursor, after_step(state, key).rows),
{
    lemma_moved_within_document(state.cursor, key, state.rows, state.size.height as int);
}

/// A second scroll with the cursor unmoved changes nothing, where the cursor
/// was at most one page beyond the window before the first.
pub proof fn lemma_scroll_again_changes_nothing(state: EditorView)
    requires
        within_a_page(state.cursor, state.offset, state.size),
    ensures
        after_scroll(after_scroll(state)) == after_scroll(state),
{
    lemma_scroll_twice(state.cursor, state.offset, state.size);
}

/// A cursor on a row that the window shows is on such a row after any key:
/// no key takes it further than one page, and that the scroll makes up for.
pub proof fn lemma_key_keeps_cursor_row_in_window(state: EditorView, key: Key)
    requires
        within_document(state.cursor, state.rows),
        state.offset.y <= state.cursor.y <= state.offset.y + state.size.height,
    ensures
        after_key(state, key).offset.y <= after_key(state, key).cursor.y <= after_key(
            state,
            key,
        ).offset.y + state.size.height,
{
}

/// Once `q` was pressed, no key changes anything.
pub proof fn lemma_quit_is_final(state: EditorView, key: Key)
    ensures
        after_step(state, Key::Char('q')).should_quit,
        after_step(after_step(state, Key::Char('q')), key) == after_step(state, Key::Char('q')),
{
}

/// What the loop around the editor does next.
pub enum Step {
    /// Write the frame to the terminal and read the next key.
    Redraw(String),
    /// Write the farewell to the terminal and stop.
    Quit(String),
}

/// A cursor in a document, the viewport that shows it, and the terminal that
/// the viewport is drawn on.
///
/// The cursor is always a place in the document.
pub struct Editor {
    should_quit: bool,
    terminal: Terminal,
    cursor_position: Position,
    offset: Position,
    document: Document,
}

impl View for Editor {
    type V = EditorView;

    closed spec fn view(&self) -> EditorView {
        EditorView {
            should_quit: self.should_quit,
            size: self.terminal@,
            cursor: self.cursor_position@,
            offset: self.offset@,
            rows: self.document@,
        }
    }
}

impl Editor {
    #[verifier::type_invariant]
    spec fn cursor_is_within_document(self) -> bool {
        within_document(self.cursor_position@, self.document@)
    }

    /// An editor that shows `document` on `terminal`, with the cursor and the
    /// viewport at the first column of the first row.
    pub fn default(document: Document, terminal: Terminal) -> (editor: Editor)
        ensures
            editor@ == (EditorView {
                should_quit: false,
                size: terminal@,
                cursor: origin(),
                offset: origin(),
                rows: document@,
            }),
    {
        Editor {
            should_quit: false,
            terminal,
            document,
            cursor_position: Position::default(),
            offset: Position::default(),
        }
    }

    /// Takes note of the size that the terminal has now. Nothing else
    /// changes: the viewport follows at the next scroll.
    pub fn resize(&mut self, width: u16, height: u16)
        ensures
            final(self)@ == (EditorView { size: Size { width, height }, ..old(self)@ }),
    {
        proof {
            use_type_invariant(&*self);
        }
        self.terminal = Terminal::default(width, height);
    }

    /// One step of the editor's loop, from the key that was read to what is
    /// written next.
    ///
    /// The key is handled, and the editor is drawn again, unless it has been
    /// asked to quit: then the farewell is due, the loop ends, and no key
    /// changes anything any more.
    pub fn run(&mut self, key: Key) -> (step: Step)
        ensures
            final(self)@ == after_step(old(self)@, key),
            within_document(final(self)@.cursor, final(self)@.rows),
            match step {
                Step::Redraw(text) => !final(self)@.should_quit && text@ == frame(final(self)@),
                Step::Quit(text) => final(self)@.should_quit && text@ == farewell(),
            },
    {
        proof {
            use_type_invariant(&*self);
        }
        if !self.should_quit {
            self.keypress(key);
        }
        if self.should_quit {
            let mut text = Terminal::clear_screen();
            text.append("Goodbye. ");
            text.append("\r\n");
            proof {
                reveal_strlit("\r\n");
                assert("\r\n"@ =~= line_break());
            }
            Step::Quit(text)
        } else {
            Step::Redraw(self.refresh_screen())
        }
    }

    /// Handles one key press.
    pub fn keypress(&mut self, key: Key)
        ensures
            final(self)@ == after_key(old(self)@, key),
            within_document(final(self)@.cursor, final(self)@.rows),
    {
        proof {
            use_type_invariant(&*self);
        }
        match key {
            Key::Char('q') => {
                self.should_quit = true;
            },
            Key::Up
            | Key::Down
            | Key::Left
            | Key::Right
            | Key::PageUp
            | Key::PageDown
            | Key::End
            | Key::Home => {
                self.move_cursor(key);
                self.scroll();
            },
            _ => {},
        }
    }

    /// Brings the viewport after the cursor.
    ///
    /// Afterwards the offset is never beyond the cursor. The cursor is in the
    /// window if it was at most one page beyond it before: the viewport moves
    /// on by one page at a time.
    pub fn scroll(&mut self)
        ensures
            final(self)@ == after_scroll(old(self)@),
            final(self)@.offset.x <= final(self)@.cursor.x,
            final(self)@.offset.y <= final(self)@.cursor.y,
            visible(final(self)@.cursor, final(self)@.offset, final(self)@.size) <==> within_a_page(
                old(self)@.cursor,
                old(self)@.offset,
                old(self)@.size,
            ),
    {
        proof {
            use_type_invariant(&*self);
        }
        let x = self.cursor_position.x;
        let y = self.cursor_position.y;
        let height = self.terminal.size().height as usize;
        let width = self.terminal.size().width as usize;
        let mut offset = self.offset;

        if y < offset.y {
            offset.y = y;
        } else if y > offset.y.saturating_add(height) {
            offset.y = offset.y.saturating_add(height).saturating_add(1);
        }
        if x < offset.x {
            offset.x = x;
        } else if x > offset.x.saturating_add(width) {
            offset.x = offset.x.saturating_add(width).saturating_add(1);
        }
        self.offset = offset;
    }

    /// Moves the cursor as `key` says. It stays in the document.
    pub fn move_cursor(&mut self, key: Key)
        ensures
            final(self)@ == after_move(old(self)@, key),
            within_document(final(self)@.cursor, final(self)@.rows),
    {
        proof {
            use_type_invariant(&*self);
        }
        let terminal_height = self.terminal.size().height as usize;
        let mut x = self.cursor_position.x;
        let mut y = self.cursor_position.y;
        let height = self.document.len();
        let mut width = self.row_length(y);
        match key {
            Key::Up => {
                y = y.saturating_sub(1);
            },
            Key::Down => {
                if y < height {
                    y = y.saturating_add(1);
                }
            },
            Key::Left => {
                if x > 0 {
                    x -= 1;
                } else if y > 0 {
                    y -= 1;
                    x = self.row_length(y);
                }
            },
            Key::Right => {
                if x < width {
                    x += 1;
                } else if y < height {
                    y += 1;
                    x = 0;
                }
            },
            Key::PageUp => {
                y = if y > terminal_height {
                    y - terminal_height
                } else {
                    0
                };
            },
            Key::PageDown => {
                let target = y.saturating_add(terminal_height);
                y = if target < height {
                    target
                } else {
                    height
                };
            },
            Key::End => {
                x = width;
            },
            Key::Home => {
                x = 0;
            },
            _ => {},
        }
        width = self.row_length(y);
        if x > width {
            x = width;
        }
        self.cursor_position = Position { x, y };
    }

    /// The length of row `y`, and 0 where the document has no such row.
    fn row_length(&self, y: usize) -> (length: usize)
        ensures
            length == line_length(self@.rows, y as int),
    {
        match self.document.row(y) {
            Some(row) => row.len(),
            None => 0,
        }
    }

    /// The frame that shows the editor as it is now.
    pub fn refresh_screen(&self) -> (text: String)
        ensures
            text@ == frame(self@),
    {
        let mut text = Terminal::cursor_hide();
        text.append(Terminal::cursor_position(&Position::default()).as_str());
        text.append(self.draw_rows().as_str());
        text.append(
            Terminal::cursor_position(
                &Position {
                    x: self.cursor_position.x.saturating_sub(self.offset.x),
                    y: self.cursor_position.y.saturating_sub(self.offset.y),
                },
            ).as_str(),
        );
        text.append(Terminal::cursor_show().as_str());
        text
    }

    /// One line of the screen for `row`: what the window shows of it.
    pub fn draw_row(&self, row: &Row) -> (text: String)
        ensures
            text@ == shown(row@, self@) + line_break(),
    {
        let width = self.terminal.size().width as usize;
        let start = self.offset.x;
        let end = self.offset.x.saturating_add(width);
        let mut text = row.render(start, end);
        text.append("\r\n");
        proof {
            reveal_strlit("\r\n");
            assert("\r\n"@ =~= line_break());
        }
        text
    }

    /// The lines of the screen, from the top line to the last but one.
    pub fn draw_rows(&self) -> (text: String)
        ensures
            text@ == screen_lines(self@, drawn_lines(self@.size)),
    {
        let height = self.terminal.size().height;
        let count = height.saturating_sub(1);
        let mut text = String::new();
        let mut terminal_row: u16 = 0;
        while terminal_row < count
            invariant
                terminal_row <= count,
                height == self@.size.height,
                text@ == screen_lines(self@, terminal_row as int),
            decreases count - terminal_row,
        {
            let mut line = Terminal::clear_current_line();
            let index = (terminal_row as usize).saturating_add(self.offset.y);
            match self.document.row(index) {
                Some(row) => {
                    line.append(self.draw_row(row).as_str());
                },
                None => {
                    if self.document.is_empty() && terminal_row == height / 3 {
                        line.append(self.draw_welcome_message().as_str());
                    } else {
                        line.append("~\r\n");
                        proof {
                            reveal_strlit("~\r\n");
                            assert("~\r\n"@ =~= seq!['~'] + line_break());
                        }
                    }
                },
            }
            assert(line@ =~= screen_line(self@, terminal_row as int));
            text.append(line.as_str());
            terminal_row += 1;
        }
        text
    }

    /// The line of the screen that holds the welcome banner.
    pub fn draw_welcome_message(&self) -> (text: String)
        ensures
            text@ == welcome_message(self@.size.width as int) + line_break(),
    {
        let mut message = "Aus6on's Lite editor -- ".to_owned();
        message.append(VERSION);
        let width = self.terminal.size().width as usize;
        let len = message.as_str().unicode_len();
        let padding = width.saturating_sub(len) / 2;
        let count = padding.saturating_sub(1);
        let mut banner = "~".to_owned();
        proof {
            reveal_strlit("~");
            assert(banner@ =~= seq!['~'] + spaces(0));
        }
        let mut i: usize = 0;
        while i < count
            invariant
                i <= count,
                banner@ == seq!['~'] + spaces(i as int),
            decreases count - i,
        {
            banner.push(' ');
            i += 1;
            assert(banner@ =~= seq!['~'] + spaces(i as int));
        }
        banner.append(message.as_str());
        let total = banner.as_str().unicode_len();
        let mut text = if width < total {
            banner.as_str().substring_char(0, width).to_owned()
        } else {
            banner
        };
        text.append("\r\n");
        proof {
            reveal_strlit("\r\n");
            assert("\r\n"@ =~= line_break());
        }
        text
    }

    /// Whether the editor has been asked to quit.
    pub fn should_quit(&self) -> (quit: bool)
        ensures
            quit == self@.should_quit,
    {
        self.should_quit
    }

    /// The terminal that the editor draws on.
    pub fn terminal(&self) -> (terminal: &Terminal)
        ensures
            terminal@ == self@.size,
    {
        &self.terminal
    }

    /// The cursor, in the document.
    pub fn cursor_position(&self) -> (position: Position)
        ensures
            position@ == self@.cursor,
            within_document(position@, self@.rows),
    {
        proof {
            use_type_invariant(&*self);
        }
        self.cursor_position
    }

    /// The place in the document that the top left cell of the terminal
    /// shows.
    pub fn offset(&self) -> (offset: Position)
        ensures
            offset@ == self@.offset,
    {
        self.offset
    }

    /// The document that the editor shows.
    pub fn document(&self) -> (document: &Document)
        ensures
            document@ == self@.rows,
    {
        &self.document
    }
}

} // verus!
