//! Display attributes of a segment: a foreground and a background colour,
//! and the escape sequences that select them.

use vstd::prelude::*;
use crate::ansi::{decimal, ESCAPE};

verus! {

/// A terminal colour.
#[derive(Debug, Copy, Clone, PartialEq, Eq, Hash, Structural)]
pub enum Color {
    /// The terminal's own default colour.
    Reset,
    Black,
    Green,
    White,
    /// One of the 256 indexed colours.
    AnsiValue(u8),
    /// A colour by its red, green and blue parts.
    Rgb { r: u8, g: u8, b: u8 },
}

/// The colours in which a segment is displayed.
#[derive(Debug, Copy, Clone, PartialEq, Eq, Hash, Structural)]
pub struct Format {
    pub bg_color: Color,
    pub fg_color: Color,
}

/// The format that leaves both colours at the terminal's defaults.
pub open spec fn plain() -> Format {
    Format { bg_color: Color::Reset, fg_color: Color::Reset }
}

/// The parameters that name `color` inside a colour-selecting sequence.
pub open spec fn color_code(color: Color) -> Seq<char> {
    match color {
        Color::Reset => Seq::empty(),
        Color::Black => seq!['5', ';', '0'],
        Color::Green => seq!['5', ';', '1', '0'],
        Color::White => seq!['5', ';', '1', '5'],
        Color::AnsiValue(v) => seq!['5', ';'] + decimal(v as nat),
        Color::Rgb { r, g, b } => seq!['2', ';'] + decimal(r as nat) + seq![';'] + decimal(
            g as nat,
        ) + seq![';'] + decimal(b as nat),
    }
}

/// The sequence that selects `color` as the foreground colour.
pub open spec fn foreground(color: Color) -> Seq<char> {
    if color == Color::Reset {
        seq![ESCAPE, '[', '3', '9', 'm']
    } else {
        seq![ESCAPE, '[', '3', '8', ';'] + color_code(color) + seq!['m']
    }
}

/// The sequence that selects `color` as the background colour.
pub open spec fn background(color: Color) -> Seq<char> {
    if color == Color::Reset {
        seq![ESCAPE, '[', '4', '9', 'm']
    } else {
        seq![ESCAPE, '[', '4', '8', ';'] + color_code(color) + seq!['m']
    }
}

/// Calls `ansi_code` of crossterm's `SetForegroundColor` command and formats
/// what it returns. Trusted: the text is the control sequence introducer,
/// `39` for the default colour or else `38;` and the colour's parameters
/// (`5;` and the index for an indexed colour, with black 0, green 10 and
/// white 15; `2;` and the three parts for an RGB colour), then `m`.
#[verifier::external_body]
fn foreground_escape(color: Color) -> (out: String)
    ensures
        out@ == foreground(color),
{
    let outside = match color {
        Color::Reset => crossterm::style::Color::Reset,
        Color::Black => crossterm::style::Color::Black,
        Color::Green => crossterm::style::Color::Green,
        Color::White => crossterm::style::Color::White,
        Color::AnsiValue(v) => crossterm::style::Color::AnsiValue(v),
        Color::Rgb { r, g, b } => crossterm::style::Color::Rgb { r, g, b },
    };
    format!("{}", crossterm::Command::ansi_code(&crossterm::style::SetForegroundColor(outside)))
}

/// Calls `ansi_code` of crossterm's `SetBackgroundColor` command and formats
/// what it returns. Trusted: the text is the control sequence introducer,
/// `49` for the default colour or else `48;` and the colour's parameters
/// (as for the foreground), then `m`.
#[verifier::external_body]
fn background_escape(color: Color) -> (out: String)
    ensures
        out@ == background(color),
{
    let outside = match color {
        Color::Reset => crossterm::style::Color::Reset,
        Color::Black => crossterm::style::Color::Black,
        Color::Green => crossterm::style::Color::Green,
        Color::White => crossterm::style::Color::White,
        Color::AnsiValue(v) => crossterm::style::Color::AnsiValue(v),
        Color::Rgb { r, g, b } => crossterm::style::Color::Rgb { r, g, b },
    };
    format!("{}", crossterm::Command::ansi_code(&crossterm::style::SetBackgroundColor(outside)))
}

impl Format {
    pub fn new(bg_color: Color, fg_color: Color) -> (out: Self)
        ensures
            out == (Format { bg_color, fg_color }),
    {
        Self { bg_color, fg_color }
    }

    /// The text that switches the terminal to this format: the background
    /// colour first, then the foreground colour.
    pub open spec fn text(self) -> Seq<char> {
        background(self.bg_color) + foreground(self.fg_color)
    }

    /// Appends the text that switches the terminal to this format.
    pub fn render_into(&self, text: &mut String)
        ensures
            final(text)@ == old(text)@ + self.text(),
    {
        let bg = background_escape(self.bg_color);
        let fg = foreground_escape(self.fg_color);
        text.push_str(bg.as_str());
        text.push_str(fg.as_str());
        assert(text@ =~= old(text)@ + self.text());
    }
}

impl Default for Format {
    fn default() -> (out: Self)
        ensures
            out == plain(),
    {
        Format { bg_color: Color::Reset, fg_color: Color::Reset }
    }
}

} // verus!
