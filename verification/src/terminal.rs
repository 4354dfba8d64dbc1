//! The terminal as the editor sees it: its size, and the control sequences
//! that move the cursor, show and hide it, and clear what is on screen.
//!
//! Nothing here writes to the terminal. Each function returns the text that,
//! once written, has the effect.

use crate::editor::Position;
use vstd::prelude::*;

verus! {

/// The character that begins a control sequence.
pub open spec fn escape() -> char {
    '\x1b'
}

/// The decimal digit for `d`, which is below ten.
pub open spec fn digit(d: nat) -> char {
    ('0' as nat + d) as char
}

/// `n` in decimal digits, without leading zeros.
pub open spec fn decimal(n: nat) -> Seq<char>
    decreases n,
{
    if n < 10 {
        seq![digit(n)]
    } else {
        decimal(n / 10).push(digit(n % 10))
    }
}

/// The sequence that hides the cursor.
pub open spec fn hide_sequence() -> Seq<char> {
    seq![escape(), '[', '?', '2', '5', 'l']
}

/// The sequence that shows the cursor.
pub open spec fn show_sequence() -> Seq<char> {
    seq![escape(), '[', '?', '2', '5', 'h']
}

/// The sequence that clears the whole screen.
pub open spec fn clear_screen_sequence() -> Seq<char> {
    seq![escape(), '[', '2', 'J']
}

/// The sequence that clears the line the cursor is on.
pub open spec fn clear_line_sequence() -> Seq<char> {
    seq![escape(), '[', '2', 'K']
}

/// The sequence that moves the cursor to `column` and `row`, both counted
/// from 0. On the wire both are counted from 1, the row first.
pub open spec fn move_to_sequence(column: nat, row: nat) -> Seq<char> {
    seq![escape(), '['] + decimal(row + 1) + seq![';'] + decimal(column + 1) + seq!['H']
}

/// The screen coordinate for `v`: `v` itself where the terminal can address
/// it, else the last cell that it can.
pub open spec fn screen_cell(v: int) -> nat {
    if v < 0 {
        0
    } else if v < u16::MAX {
        v as nat
    } else {
        (u16::MAX - 1) as nat
    }
}

/// The number of columns and rows of the terminal, in character cells.
#[derive(Clone, Copy, Debug, PartialEq, Eq, Structural)]
pub struct Size {
    pub width: u16,
    pub height: u16,
}

/// The terminal that the editor draws on.
pub struct Terminal {
    size: Size,
}

impl View for Terminal {
    type V = Size;

    closed spec fn view(&self) -> Size {
        self.size
    }
}

impl Terminal {
    /// A terminal of `width` columns and `height` rows.
    pub fn default(width: u16, height: u16) -> (terminal: Terminal)
        ensures
            terminal@ == (Size { width, height }),
    {
        Terminal { size: Size { width, height } }
    }

    /// The size of the terminal.
    pub fn size(&self) -> (size: &Size)
        ensures
            *size == self@,
    {
        &self.size
    }

    /// The text that clears the whole screen.
    pub fn clear_screen() -> (text: String)
        ensures
            text@ == clear_screen_sequence(),
    {
        ansi_clear_all()
    }

    /// The text that moves the cursor to `position`, which counts columns and
    /// rows from 0. A coordinate that the terminal cannot address is taken
    /// for the last one that it can.
    pub fn cursor_position(position: &Position) -> (text: String)
        ensures
            text@ == move_to_sequence(
                screen_cell(position.x as int),
                screen_cell(position.y as int),
            ),
    {
        let column: u16 = if position.x < 0xfffe {
            position.x as u16
        } else {
            0xfffe
        };
        let row: u16 = if position.y < 0xfffe {
            position.y as u16
        } else {
            0xfffe
        };
        ansi_move_to(column, row)
    }

    /// The text that hides the cursor.
    pub fn cursor_hide() -> (text: String)
        ensures
            text@ == hide_sequence(),
    {
        ansi_hide()
    }

    /// The text that shows the cursor.
    pub fn cursor_show() -> (text: String)
        ensures
            text@ == show_sequence(),
    {
        ansi_show()
    }

    /// The text that clears the line the cursor is on.
    pub fn clear_current_line() -> (text: String)
        ensures
            text@ == clear_line_sequence(),
    {
        ansi_clear_line()
    }
}

/// `Command::write_ansi` of `crossterm::cursor::MoveTo`, into an empty string.
///
/// Not proved: that it writes the escape character, `[`, the row plus one in
/// decimal, `;`, the column plus one in decimal, and `H`. It adds the one in
/// `u16`, so neither coordinate may be the largest `u16`. Writing into a
/// `String` does not fail.
#[verifier::external_body]
fn ansi_move_to(column: u16, row: u16) -> (text: String)
    requires
        column < u16::MAX,
        row < u16::MAX,
    ensures
        text@ == move_to_sequence(column as nat, row as nat),
{
    let mut text = String::new();
    let _ = crossterm::Command::write_ansi(&crossterm::cursor::MoveTo(column, row), &mut text);
    text
}

/// `Command::write_ansi` of `crossterm::cursor::Hide`, into an empty string.
///
/// Not proved: that it writes the escape character and `[?25l`. Writing into
/// a `String` does not fail.
#[verifier::external_body]
fn ansi_hide() -> (text: String)
    ensures
        text@ == hide_sequence(),
{
    let mut text = String::new();
    let _ = crossterm::Command::write_ansi(&crossterm::cursor::Hide, &mut text);
    text
}

/// `Command::write_ansi` of `crossterm::cursor::Show`, into an empty string.
///
/// Not proved: that it writes the escape character and `[?25h`. Writing into
/// a `String` does not fail.
#[verifier::external_body]
fn ansi_show() -> (text: String)
    ensures
        text@ == show_sequence(),
{
    let mut text = String::new();
    let _ = crossterm::Command::write_ansi(&crossterm::cursor::Show, &mut text);
    text
}

/// `Command::write_ansi` of `crossterm::terminal::Clear` with
/// `ClearType::All`, into an empty string.
///
/// Not proved: that it writes the escape character and `[2J`. Writing into a
/// `String` does not fail.
#[verifier::external_body]
fn ansi_clear_all() -> (text: String)
    ensures
        text@ == clear_screen_sequence(),
{
    let mut text = String::new();
    let clear = crossterm::terminal::Clear(crossterm::terminal::ClearType::All);
    let _ = crossterm::Command::write_ansi(&clear, &mut text);
    text
}

/// `Command::write_ansi` of `crossterm::terminal::Clear` with
/// `ClearType::CurrentLine`, into an empty string.
///
/// Not proved: that it writes the escape character and `[2K`. Writing into a
/// `String` does not fail.
#[verifier::external_body]
fn ansi_clear_line() -> (text: String)
    ensures
        text@ == clear_line_sequence(),
{
    let mut text = String::new();
    let clear = crossterm::terminal::Clear(crossterm::terminal::ClearType::CurrentLine);
    let _ = crossterm::Command::write_ansi(&clear, &mut text);
    text
}

} // verus!
