//! Colors of the lines drawn in the plant charts.

use vstd::prelude::*;

verus! {

/// A color given by its red, green and blue parts.
#[derive(Debug, Clone, Copy, PartialEq, Eq, Structural)]
pub struct RGBColor(pub u8, pub u8, pub u8);

/// Black.
pub fn black() -> (c: RGBColor)
    ensures
        c == RGBColor(0, 0, 0),
{
    RGBColor(0, 0, 0)
}

/// Pure blue.
pub fn blue() -> (c: RGBColor)
    ensures
        c == RGBColor(0, 0, 255),
{
    RGBColor(0, 0, 255)
}

} // verus!
