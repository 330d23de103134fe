//! The fixed output palette and its numeric codes.
use vstd::prelude::*;

verus! {

/// A pixel as three 8-bit channels: red, green, blue.
#[derive(Clone, Copy, Debug, PartialEq, Eq, Structural)]
pub struct Rgb(pub u8, pub u8, pub u8);

/// The seven named colours a tile is reduced to.
#[derive(Clone, Copy, Debug, PartialEq, Eq, Structural)]
pub enum PaletteColor {
    Black,
    White,
    Green,
    Blue,
    Red,
    Yellow,
    Orange,
}

impl PaletteColor {
    /// The RGB triple that stands for this colour.
    pub open spec fn spec_rgb(self) -> Rgb {
        match self {
            PaletteColor::Black => Rgb(0, 0, 0),
            PaletteColor::White => Rgb(255, 255, 255),
            PaletteColor::Green => Rgb(0, 255, 0),
            PaletteColor::Blue => Rgb(0, 0, 255),
            PaletteColor::Red => Rgb(255, 0, 0),
            PaletteColor::Yellow => Rgb(255, 255, 50),
            PaletteColor::Orange => Rgb(255, 127, 0),
        }
    }

    /// The 3-bit code of this colour in the packed output.
    pub open spec fn spec_code(self) -> u8 {
        match self {
            PaletteColor::Black => 0,
            PaletteColor::White => 1,
            PaletteColor::Green => 2,
            PaletteColor::Blue => 3,
            PaletteColor::Red => 4,
            PaletteColor::Yellow => 5,
            PaletteColor::Orange => 6,
        }
    }

    pub fn rgb(self) -> (r: Rgb)
        ensures
            r == self.spec_rgb(),
    {
        match self {
            PaletteColor::Black => Rgb(0, 0, 0),
            PaletteColor::White => Rgb(255, 255, 255),
            PaletteColor::Green => Rgb(0, 255, 0),
            PaletteColor::Blue => Rgb(0, 0, 255),
            PaletteColor::Red => Rgb(255, 0, 0),
            PaletteColor::Yellow => Rgb(255, 255, 50),
            PaletteColor::Orange => Rgb(255, 127, 0),
        }
    }

    pub fn code(self) -> (r: u8)
        ensures
            r == self.spec_code(),
            r < 8,
    {
        match self {
            PaletteColor::Black => 0,
            PaletteColor::White => 1,
            PaletteColor::Green => 2,
            PaletteColor::Blue => 3,
            PaletteColor::Red => 4,
            PaletteColor::Yellow => 5,
            PaletteColor::Orange => 6,
        }
    }
}

/// The code of an arbitrary pixel: the code of the palette colour with exactly
/// that RGB triple, or 7 when it is none of them.
pub open spec fn raw_code(c: Rgb) -> u8 {
    if c == PaletteColor::Black.spec_rgb() {
        0
    } else if c == PaletteColor::White.spec_rgb() {
        1
    } else if c == PaletteColor::Red.spec_rgb() {
        4
    } else if c == PaletteColor::Blue.spec_rgb() {
        3
    } else if c == PaletteColor::Green.spec_rgb() {
        2
    } else if c == PaletteColor::Yellow.spec_rgb() {
        5
    } else if c == PaletteColor::Orange.spec_rgb() {
        6
    } else {
        7
    }
}

/// The packed-output code of a pixel.
pub fn color_to_raw(c: Rgb) -> (r: u8)
    ensures
        r == raw_code(c),
        r < 8,
{
    match c {
        Rgb(0, 0, 0) => 0,
        Rgb(255, 255, 255) => 1,
        Rgb(255, 0, 0) => 4,
        Rgb(0, 0, 255) => 3,
        Rgb(0, 255, 0) => 2,
        Rgb(255, 255, 50) => 5,
        Rgb(255, 127, 0) => 6,
        _ => 7,
    }
}

/// Every palette colour reads back as its own code.
pub proof fn lemma_palette_code_round_trip(p: PaletteColor)
    ensures
        raw_code(p.spec_rgb()) == p.spec_code(),
{
}

} // verus!
