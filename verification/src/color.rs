//! The sixteen foreground colours that a graphics-mode parameter can select.

use vstd::prelude::*;

verus! {

/// A foreground colour: the eight standard ones, then their bright variants.
#[derive(Clone, Copy, Debug, PartialEq, Eq, Structural)]
pub enum AnsiColor {
    Black,
    Red,
    Green,
    Yellow,
    Blue,
    Magenta,
    Cyan,
    White,
    BrightBlack,
    BrightRed,
    BrightGreen,
    BrightYellow,
    BrightBlue,
    BrightMagenta,
    BrightCyan,
    BrightWhite,
}

/// Whether `code` is a graphics-mode parameter that selects a foreground colour.
pub open spec fn is_color_code(code: u8) -> bool {
    30 <= code <= 37 || 90 <= code <= 97
}

/// The palette in order: the standard colours, then the bright ones.
pub open spec fn palette() -> Seq<AnsiColor> {
    seq![
        AnsiColor::Black,
        AnsiColor::Red,
        AnsiColor::Green,
        AnsiColor::Yellow,
        AnsiColor::Blue,
        AnsiColor::Magenta,
        AnsiColor::Cyan,
        AnsiColor::White,
        AnsiColor::BrightBlack,
        AnsiColor::BrightRed,
        AnsiColor::BrightGreen,
        AnsiColor::BrightYellow,
        AnsiColor::BrightBlue,
        AnsiColor::BrightMagenta,
        AnsiColor::BrightCyan,
        AnsiColor::BrightWhite,
    ]
}

/// The colour that a colour parameter selects: 30 to 37 select the
/// standard colours in palette order, 90 to 97 the bright ones.
pub open spec fn color_of_code(code: u8) -> AnsiColor
    recommends
        is_color_code(code),
{
    if code < 90 {
        palette()[code - 30]
    } else {
        palette()[code - 82]
    }
}

impl AnsiColor {
    /// Position of the colour in the palette, from 0 (black) to 15 (bright white).
    pub open spec fn index(self) -> int {
        match self {
            AnsiColor::Black => 0,
            AnsiColor::Red => 1,
            AnsiColor::Green => 2,
            AnsiColor::Yellow => 3,
            AnsiColor::Blue => 4,
            AnsiColor::Magenta => 5,
            AnsiColor::Cyan => 6,
            AnsiColor::White => 7,
            AnsiColor::BrightBlack => 8,
            AnsiColor::BrightRed => 9,
            AnsiColor::BrightGreen => 10,
            AnsiColor::BrightYellow => 11,
            AnsiColor::BrightBlue => 12,
            AnsiColor::BrightMagenta => 13,
            AnsiColor::BrightCyan => 14,
            AnsiColor::BrightWhite => 15,
        }
    }

    /// The graphics-mode parameter that selects the colour: 30 to 37 for the
    /// standard colours, 90 to 97 for the bright ones.
    pub open spec fn spec_code(self) -> int {
        if self.index() < 8 {
            30 + self.index()
        } else {
            82 + self.index()
        }
    }

    /// Red, green and blue of the colour as the log shows it.
    pub open spec fn spec_rgb(self) -> (u8, u8, u8) {
        match self {
            AnsiColor::Black => (0x00, 0x00, 0x00),
            AnsiColor::Red => (0xCD, 0x5C, 0x5C),
            AnsiColor::Green => (0x90, 0xEE, 0x90),
            AnsiColor::Yellow => (0xFF, 0xD7, 0x00),
            AnsiColor::Blue => (0x46, 0x82, 0xB4),
            AnsiColor::Magenta => (0xBA, 0x55, 0xD3),
            AnsiColor::Cyan => (0x40, 0xE0, 0xD0),
            AnsiColor::White => (0xD3, 0xD3, 0xD3),
            AnsiColor::BrightBlack => (0x80, 0x80, 0x80),
            AnsiColor::BrightRed => (0xFF, 0x00, 0x00),
            AnsiColor::BrightGreen => (0x00, 0xFF, 0x00),
            AnsiColor::BrightYellow => (0xFF, 0xFF, 0x00),
            AnsiColor::BrightBlue => (0x00, 0x00, 0xFF),
            AnsiColor::BrightMagenta => (0xFF, 0x00, 0xFF),
            AnsiColor::BrightCyan => (0x00, 0xFF, 0xFF),
            AnsiColor::BrightWhite => (0xFF, 0xFF, 0xFF),
        }
    }

    /// The colour that a graphics-mode parameter selects, if it selects one.
    pub fn from_code(code: u8) -> (color: Option<AnsiColor>)
        ensures
            color == if is_color_code(code) {
                Some(color_of_code(code))
            } else {
                None
            },
    {
        match code {
            30 => Some(AnsiColor::Black),
            31 => Some(AnsiColor::Red),
            32 => Some(AnsiColor::Green),
            33 => Some(AnsiColor::Yellow),
            34 => Some(AnsiColor::Blue),
            35 => Some(AnsiColor::Magenta),
            36 => Some(AnsiColor::Cyan),
            37 => Some(AnsiColor::White),
            90 => Some(AnsiColor::BrightBlack),
            91 => Some(AnsiColor::BrightRed),
            92 => Some(AnsiColor::BrightGreen),
            93 => Some(AnsiColor::BrightYellow),
            94 => Some(AnsiColor::BrightBlue),
            95 => Some(AnsiColor::BrightMagenta),
            96 => Some(AnsiColor::BrightCyan),
            97 => Some(AnsiColor::BrightWhite),
            _ => None,
        }
    }

    /// The graphics-mode parameter that selects this colour.
    pub fn code(self) -> (code: u8)
        ensures
            code == self.spec_code(),
            is_color_code(code),
    {
        match self {
            AnsiColor::Black => 30,
            AnsiColor::Red => 31,
            AnsiColor::Green => 32,
            AnsiColor::Yellow => 33,
            AnsiColor::Blue => 34,
            AnsiColor::Magenta => 35,
            AnsiColor::Cyan => 36,
            AnsiColor::White => 37,
            AnsiColor::BrightBlack => 90,
            AnsiColor::BrightRed => 91,
            AnsiColor::BrightGreen => 92,
            AnsiColor::BrightYellow => 93,
            AnsiColor::BrightBlue => 94,
            AnsiColor::BrightMagenta => 95,
            AnsiColor::BrightCyan => 96,
            AnsiColor::BrightWhite => 97,
        }
    }

    /// Red, green and blue of the colour as the log shows it.
    pub fn rgb(self) -> (rgb: (u8, u8, u8))
        ensures
            rgb == self.spec_rgb(),
    {
        match self {
            AnsiColor::Black => (0x00, 0x00, 0x00),
            AnsiColor::Red => (0xCD, 0x5C, 0x5C),
            AnsiColor::Green => (0x90, 0xEE, 0x90),
            AnsiColor::Yellow => (0xFF, 0xD7, 0x00),
            AnsiColor::Blue => (0x46, 0x82, 0xB4),
            AnsiColor::Magenta => (0xBA, 0x55, 0xD3),
            AnsiColor::Cyan => (0x40, 0xE0, 0xD0),
            AnsiColor::White => (0xD3, 0xD3, 0xD3),
            AnsiColor::BrightBlack => (0x80, 0x80, 0x80),
            AnsiColor::BrightRed => (0xFF, 0x00, 0x00),
            AnsiColor::BrightGreen => (0x00, 0xFF, 0x00),
            AnsiColor::BrightYellow => (0xFF, 0xFF, 0x00),
            AnsiColor::BrightBlue => (0x00, 0x00, 0xFF),
            AnsiColor::BrightMagenta => (0xFF, 0x00, 0xFF),
            AnsiColor::BrightCyan => (0x00, 0xFF, 0xFF),
            AnsiColor::BrightWhite => (0xFF, 0xFF, 0xFF),
        }
    }
}

/// The parameter of a colour selects that colour, and the colour that a
/// colour parameter selects has that parameter.
pub proof fn code_and_color_agree(color: AnsiColor, code: u8)
    ensures
        is_color_code(color.spec_code() as u8),
        color_of_code(color.spec_code() as u8) == color,
        palette()[color.index()] == color,
        is_color_code(code) ==> color_of_code(code).spec_code() == code,
{
    if is_color_code(code) {
        let i: int = if code < 90 {
            code - 30
        } else {
            code - 82
        };
        assert(0 <= i < 16);
        assert(palette()[i].index() == i);
    }
}

} // verus!
