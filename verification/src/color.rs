//! The palette, the attribute byte and the display cell.

use vstd::prelude::*;

verus! {

/// The sixteen colours of the palette, in palette order.
#[derive(Debug, Clone, Copy, PartialEq, Eq, Structural)]
pub enum Color {
    Black,
    Blue,
    Green,
    Cyan,
    Red,
    Magenta,
    Brown,
    LightGray,
    DarkGray,
    LightBlue,
    LightGreen,
    LightCyan,
    LightRed,
    Pink,
    Yellow,
    White,
}

impl Color {
    /// The colour's place in the palette, from 0 (black) to 15 (white).
    pub open spec fn palette_index(self) -> u8 {
        match self {
            Color::Black => 0,
            Color::Blue => 1,
            Color::Green => 2,
            Color::Cyan => 3,
            Color::Red => 4,
            Color::Magenta => 5,
            Color::Brown => 6,
            Color::LightGray => 7,
            Color::DarkGray => 8,
            Color::LightBlue => 9,
            Color::LightGreen => 10,
            Color::LightCyan => 11,
            Color::LightRed => 12,
            Color::Pink => 13,
            Color::Yellow => 14,
            Color::White => 15,
        }
    }

    /// Computes the colour's place in the palette.
    pub fn index(self) -> (index: u8)
        ensures
            index == self.palette_index(),
            index < 16,
    {
        match self {
            Color::Black => 0,
            Color::Blue => 1,
            Color::Green => 2,
            Color::Cyan => 3,
            Color::Red => 4,
            Color::Magenta => 5,
            Color::Brown => 6,
            Color::LightGray => 7,
            Color::DarkGray => 8,
            Color::LightBlue => 9,
            Color::LightGreen => 10,
            Color::LightCyan => 11,
            Color::LightRed => 12,
            Color::Pink => 13,
            Color::Yellow => 14,
            Color::White => 15,
        }
    }
}

/// An attribute byte: the background colour in the high nibble, the
/// foreground colour in the low nibble.
#[derive(Debug, Clone, Copy, PartialEq, Eq, Structural)]
pub struct ColorCode(pub u8);

impl ColorCode {
    /// The attribute byte of a foreground on a background.
    pub open spec fn packed(foreground: Color, background: Color) -> ColorCode {
        ColorCode((background.palette_index() * 16 + foreground.palette_index()) as u8)
    }

    /// Packs a foreground and a background colour into one attribute byte.
    pub fn new(foreground: Color, background: Color) -> (code: ColorCode)
        ensures
            code == ColorCode::packed(foreground, background),
            code.0 & 0x0f == foreground.palette_index(),
            code.0 >> 4 == background.palette_index(),
    {
        let fg: u8 = foreground.index();
        let bg: u8 = background.index();
        assert(((bg << 4) | fg) == bg * 16 + fg && ((bg << 4) | fg) & 0x0f == fg && ((bg << 4) | fg)
            >> 4 == bg) by (bit_vector)
            requires
                fg < 16,
                bg < 16,
        ;
        ColorCode((bg << 4) | fg)
    }
}

/// One display cell: a character byte and its attribute byte.
#[derive(Debug, Clone, Copy, PartialEq, Eq, Structural)]
pub struct ScreenChar {
    pub character_value: u8,
    pub color_code: ColorCode,
}

} // verus!
