//! Spatial patterns that render a shade with one or two palette colours.
use vstd::prelude::*;
use crate::palette::{PaletteColor, Rgb};

verus! {

/// How a table entry turns a pixel position into a palette colour.
#[derive(Clone, Copy, Debug, PartialEq, Eq, Structural)]
pub enum Pattern {
    /// One colour everywhere.
    Solid(PaletteColor),
    /// A 2x2 alternation of two colours: the first where x and y have the
    /// same parity, the second elsewhere.
    Checker(PaletteColor, PaletteColor),
}

/// The colour a checkerboard of `first` and `second` shows at (x, y).
pub open spec fn checker_spec(x: u32, y: u32, first: PaletteColor, second: PaletteColor) -> PaletteColor {
    if x % 2 == y % 2 {
        first
    } else {
        second
    }
}

impl Pattern {
    /// The colour this pattern shows at (x, y).
    pub open spec fn spec_pick(self, x: u32, y: u32) -> PaletteColor {
        match self {
            Pattern::Solid(c) => c,
            Pattern::Checker(first, second) => checker_spec(x, y, first, second),
        }
    }

    /// The colour this pattern shows at (x, y); a solid pattern ignores the position.
    pub fn pick(&self, x: u32, y: u32) -> (r: PaletteColor)
        ensures
            r == self.spec_pick(x, y),
            self matches Pattern::Solid(c) ==> r == c,
    {
        match *self {
            Pattern::Solid(c) => c,
            Pattern::Checker(first, second) => checker(x, y, first, second),
        }
    }
}

/// Alternates two colours over a 2x2 cell: `first` where x and y are both even
/// or both odd, `second` otherwise.
pub fn checker(x: u32, y: u32, first: PaletteColor, second: PaletteColor) -> (r: PaletteColor)
    ensures
        r == checker_spec(x, y, first, second),
        (x % 2 == y % 2) ==> r == first,
        (x % 2 != y % 2) ==> r == second,
{
    if x % 2 == 1 {
        if y % 2 == 1 {
            first
        } else {
            second
        }
    } else if y % 2 == 1 {
        second
    } else {
        first
    }
}

/// One row of a classification table: the reference colour it is keyed by and
/// the pattern that renders it.
#[derive(Clone, Copy, Debug, PartialEq, Eq, Structural)]
pub struct Entry {
    pub key: Rgb,
    pub pattern: Pattern,
}

} // verus!
