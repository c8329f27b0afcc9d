//! Logical pixel colors and their transmitted bit patterns.

use vstd::prelude::*;

verus! {

/// A logical pixel color of the monochrome plane.
///
/// The panel is bistable black/white; a plane flood-filled with a color
/// transmits that color's byte pattern once per eight pixels.
#[derive(Clone, Copy, PartialEq, Eq, Structural, Debug)]
pub enum Color {
    /// Every pixel of the byte dark.
    Black,
    /// Every pixel of the byte light.
    White,
}

impl Color {
    /// The byte transmitted for eight pixels of this color.
    pub open spec fn spec_byte_value(self) -> u8 {
        match self {
            Color::Black => 0x00,
            Color::White => 0xff,
        }
    }

    /// Returns the byte pattern transmitted for eight pixels of this color.
    pub fn get_byte_value(&self) -> (r: u8)
        ensures
            r == self.spec_byte_value(),
    {
        match self {
            Color::Black => 0x00,
            Color::White => 0xff,
        }
    }
}

} // verus!
