//! The three colours of the panel.

use vstd::prelude::*;

verus! {

/// A pixel colour: black, white, or the panel's chromatic ink (red or
/// yellow, depending on the panel).
#[derive(Clone, Copy, Debug, PartialEq, Eq, Structural)]
pub enum TriColor {
    Black,
    White,
    Chromatic,
}

impl TriColor {
    /// The byte that paints eight neighbouring pixels of a RAM bank in this
    /// colour.
    pub open spec fn byte_value(self) -> u8 {
        match self {
            TriColor::Black => 0x00,
            TriColor::White => 0xff,
            TriColor::Chromatic => 0xff,
        }
    }

    /// The fill byte for this colour.
    pub fn get_byte_value(self) -> (r: u8)
        ensures
            r == self.byte_value(),
    {
        match self {
            TriColor::Black => 0x00,
            TriColor::White => 0xff,
            TriColor::Chromatic => 0xff,
        }
    }
}

} // verus!
