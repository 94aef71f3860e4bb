//! The two colors of a monochrome e-paper panel.

use vstd::prelude::*;

verus! {

/// A pixel color. Only black and white panels are supported.
#[derive(Clone, Copy, Debug, PartialEq, Eq, Structural)]
pub enum Color {
    /// Black pixel.
    Black,
    /// White pixel.
    White,
}

impl Color {
    /// The bit that encodes this color in a frame: one for white, zero for black.
    pub open spec fn bit(self) -> bool {
        self == Color::White
    }

    /// The byte in which all eight pixels have this color.
    pub open spec fn byte(self) -> u8 {
        match self {
            Color::White => 0xffu8,
            Color::Black => 0x00u8,
        }
    }

    /// The opposite color.
    pub open spec fn opposite(self) -> Color {
        match self {
            Color::White => Color::Black,
            Color::Black => Color::White,
        }
    }

    /// Returns the value of a single pixel bit of this color.
    pub fn get_bit_value(self) -> (bit: u8)
        ensures
            bit == (if self.bit() { 1u8 } else { 0u8 }),
    {
        match self {
            Color::White => 1u8,
            Color::Black => 0u8,
        }
    }

    /// Returns the byte that fills eight pixels with this color.
    pub fn get_byte_value(self) -> (byte: u8)
        ensures
            byte == self.byte(),
    {
        match self {
            Color::White => 0xffu8,
            Color::Black => 0x00u8,
        }
    }

    /// Returns the opposite color.
    pub fn inverse(self) -> (other: Color)
        ensures
            other == self.opposite(),
    {
        match self {
            Color::White => Color::Black,
            Color::Black => Color::White,
        }
    }
}

} // verus!
