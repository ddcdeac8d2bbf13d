use vstd::prelude::*;
use crate::utils::ok_or_default;

verus! {

/// A colour by its red, green and blue parts.
#[derive(Clone, Copy, Debug, PartialEq, Eq, Structural)]
pub struct Rgb {
    pub r: u8,
    pub g: u8,
    pub b: u8,
}

/// A number of the script read as a part of a colour: itself where it lies
/// between 0 and 255, zero otherwise.
pub open spec fn channel(value: i64) -> u8 {
    if 0 <= value <= u8::MAX {
        value as u8
    } else {
        0
    }
}

/// The colour of these parts. A part that is out of range counts as zero.
pub fn i64_to_color(r: i64, g: i64, b: i64) -> (color: Rgb)
    ensures
        color == (Rgb { r: channel(r), g: channel(g), b: channel(b) }),
{
    let r8 = ok_or_default(u8::try_from(r));
    let g8 = ok_or_default(u8::try_from(g));
    let b8 = ok_or_default(u8::try_from(b));
    Rgb { r: r8, g: g8, b: b8 }
}

} // verus!
