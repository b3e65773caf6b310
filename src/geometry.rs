//! Plain geometric values. Coordinates are single-precision numbers held as
//! their IEEE-754 bit patterns, so that every value is kept exactly.
use vstd::prelude::*;

verus! {

/// A rectangle by its bounds; no order of the bounds is enforced. Millimetres
/// on a page, pixels in a scanned image.
#[derive(Debug, Clone, Copy, Default, PartialEq, Eq, Structural, Hash)]
pub struct Rect {
    pub min_x: u32,
    pub min_y: u32,
    pub max_x: u32,
    pub max_y: u32,
}

/// A point on a page, in millimetres.
#[derive(Debug, Clone, Copy, Default, PartialEq, Eq, Structural, Hash)]
pub struct Punkt {
    pub x: u32,
    pub y: u32,
}

/// A line drawn by a user over a page, through its points in order.
#[derive(Debug, Clone, Default, PartialEq, Eq, Hash)]
pub struct Linie {
    pub punkte: Vec<Punkt>,
}

/// Where on which page a block of text was found.
#[derive(Debug, Clone, Default, PartialEq, Eq, Hash)]
pub struct PositionInPdf {
    /// Page number, in decimal.
    pub seite: String,
    /// Bounds in millimetres.
    pub rect: Rect,
}

} // verus!
