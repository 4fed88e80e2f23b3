use vstd::prelude::*;

verus! {

/// A point or a displacement on the playfield, in the playfield's integer units.
#[derive(Clone, Copy, Debug, PartialEq, Eq, Structural)]
pub struct Vec2 {
    pub x: i64,
    pub y: i64,
}

impl Vec2 {
    pub fn new(x: i64, y: i64) -> (r: Vec2)
        ensures
            r == (Vec2 { x, y }),
    {
        Vec2 { x, y }
    }

    pub fn zero() -> (r: Vec2)
        ensures
            r == (Vec2 { x: 0, y: 0 }),
    {
        Vec2 { x: 0, y: 0 }
    }
}

/// An axis-aligned rectangle: its top-left corner and its size.
#[derive(Clone, Copy, Debug, PartialEq, Eq, Structural)]
pub struct Rect {
    pub x: i64,
    pub y: i64,
    pub width: i64,
    pub height: i64,
}

/// Two rectangles overlap when each one starts strictly before the other ends, on both axes.
pub open spec fn overlaps(a: Rect, b: Rect) -> bool {
    &&& a.x < b.x + b.width
    &&& a.x + a.width > b.x
    &&& a.y < b.y + b.height
    &&& a.y + a.height > b.y
}

/// The corner-plus-size sums that an overlap test forms all fit in an `i64`.
pub open spec fn sums_fit(a: Rect, b: Rect) -> bool {
    &&& i64::MIN <= a.x + a.width <= i64::MAX
    &&& i64::MIN <= a.y + a.height <= i64::MAX
    &&& i64::MIN <= b.x + b.width <= i64::MAX
    &&& i64::MIN <= b.y + b.height <= i64::MAX
}

impl Rect {
    /// Whether the two rectangles overlap; rectangles that only touch do not.
    pub fn intersects(&self, other: &Rect) -> (r: bool)
        requires
            sums_fit(*self, *other),
        ensures
            r == overlaps(*self, *other),
    {
        self.x < other.x + other.width && self.x + self.width > other.x && self.y < other.y
            + other.height && self.y + self.height > other.y
    }
}

} // verus!
