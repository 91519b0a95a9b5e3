//! Integer pixel geometry: points, client-area sizes, and the exact
//! screen-to-client coordinate transform used by the input router.

use vstd::prelude::*;

verus! {

/// A position in integer pixels, either in screen space or in the host
/// window's client space.
#[derive(Clone, Copy, Debug, PartialEq, Eq, Structural)]
pub struct Point {
    pub x: i32,
    pub y: i32,
}

/// A client-area size in whole pixels.
#[derive(Clone, Copy, Debug, PartialEq, Eq, Structural)]
pub struct Size {
    pub width: u32,
    pub height: u32,
}

/// True when `v` is representable as an `i32`.
pub open spec fn fits_i32(v: int) -> bool {
    i32::MIN <= v <= i32::MAX
}

/// Both coordinates of the screen-to-client difference are representable,
/// so the exact transform can be computed in pixel integers.
pub open spec fn transform_fits(p: Point, origin: Point) -> bool {
    fits_i32(p.x - origin.x) && fits_i32(p.y - origin.y)
}

/// The screen-to-client transform is a pure offset subtraction: a screen
/// position `p` maps to `p - origin`, where `origin` is the screen position
/// of the window's client-area origin.
pub open spec fn client_x_of(p: Point, origin: Point) -> int {
    p.x - origin.x
}

/// The `y` coordinate of the screen-to-client transform; see [`client_x_of`].
pub open spec fn client_y_of(p: Point, origin: Point) -> int {
    p.y - origin.y
}

/// Maps a screen-space position to client-space coordinates by subtracting
/// the client-area origin, exactly, with no rounding drift.
pub fn screen_to_client(p: Point, origin: Point) -> (r: Point)
    requires
        transform_fits(p, origin),
    ensures
        r.x == client_x_of(p, origin),
        r.y == client_y_of(p, origin),
{
    Point { x: p.x - origin.x, y: p.y - origin.y }
}

/// The inverse mapping: a client-space position back to screen space.
pub fn client_to_screen(p: Point, origin: Point) -> (r: Point)
    requires
        fits_i32(p.x + origin.x),
        fits_i32(p.y + origin.y),
    ensures
        r.x == p.x + origin.x,
        r.y == p.y + origin.y,
{
    Point { x: p.x + origin.x, y: p.y + origin.y }
}

/// With the client-area origin at the screen origin, the transform is the
/// identity on both coordinates.
pub proof fn lemma_transform_zero_origin(p: Point)
    ensures
        client_x_of(p, Point { x: 0, y: 0 }) == p.x,
        client_y_of(p, Point { x: 0, y: 0 }) == p.y,
{
}

/// The transform is invertible: adding the origin back to the client-space
/// position recovers the screen-space position, for every origin, including
/// ones that make either difference negative.
pub proof fn lemma_transform_roundtrip(p: Point, origin: Point)
    requires
        transform_fits(p, origin),
    ensures
        client_x_of(p, origin) + origin.x == p.x,
        client_y_of(p, origin) + origin.y == p.y,
{
}

} // verus!
