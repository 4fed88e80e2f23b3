use vstd::prelude::*;

use crate::geometry::{Rect, Vec2};

verus! {

/// The largest magnitude that a coordinate, a size, a speed or a tunable may have
/// for a frame to be computed without leaving `i64`.
pub const COORD_LIMIT: i64 = 1073741824;

pub open spec fn in_limit(v: int) -> bool {
    -COORD_LIMIT <= v <= COORD_LIMIT
}

/// A paddle or the ball: a named, sized object with a position (its top-left corner)
/// and a velocity, in the playfield's integer units.
#[derive(Clone, Debug, PartialEq, Eq)]
pub struct Entity {
    pub name: String,
    /// Width in `x`, height in `y`, taken from the sprite; it never changes.
    pub size: Vec2,
    pub position: Vec2,
    pub velocity: Vec2,
}

/// `v / 2` rounded down, for a value known to be non-negative.
pub open spec fn half(v: int) -> int {
    v / 2
}

/// The coordinate that centres a span of length `len` in a span of length `total`.
pub open spec fn centred_start(total: int, len: int) -> int {
    half(total) - half(len)
}

impl Entity {
    /// The size is strictly positive and small enough for a frame's arithmetic.
    pub open spec fn wf(&self) -> bool {
        &&& 0 < self.size.x <= COORD_LIMIT
        &&& 0 < self.size.y <= COORD_LIMIT
    }

    /// Position and velocity are small enough for a frame's arithmetic.
    pub open spec fn in_limits(&self) -> bool {
        &&& in_limit(self.position.x as int)
        &&& in_limit(self.position.y as int)
        &&& in_limit(self.velocity.x as int)
        &&& in_limit(self.velocity.y as int)
    }

    pub open spec fn bounds_spec(&self) -> Rect {
        Rect {
            x: self.position.x,
            y: self.position.y,
            width: self.size.x,
            height: self.size.y,
        }
    }

    /// The centre, each coordinate rounded down to the unit.
    pub open spec fn centre_x(&self) -> int {
        self.position.x + half(self.size.x as int)
    }

    pub open spec fn centre_y(&self) -> int {
        self.position.y + half(self.size.y as int)
    }

    /// The entity at rest.
    pub fn new(name: String, size: Vec2, position: Vec2) -> (r: Entity)
        requires
            size.x > 0,
            size.y > 0,
        ensures
            r.name == name,
            r.size == size,
            r.position == position,
            r.velocity == (Vec2 { x: 0, y: 0 }),
    {
        Entity::with_velocity(name, size, position, Vec2::zero())
    }

    /// The entity moving by `velocity` each frame (the ball).
    pub fn with_velocity(name: String, size: Vec2, position: Vec2, velocity: Vec2) -> (r: Entity)
        requires
            size.x > 0,
            size.y > 0,
        ensures
            r.name == name,
            r.size == size,
            r.position == position,
            r.velocity == velocity,
    {
        Entity { name, size, position, velocity }
    }

    pub fn width(&self) -> (r: i64)
        ensures
            r == self.size.x,
    {
        self.size.x
    }

    pub fn height(&self) -> (r: i64)
        ensures
            r == self.size.y,
    {
        self.size.y
    }

    /// The rectangle that the entity covers, used for collisions.
    pub fn bounds(&self) -> (r: Rect)
        ensures
            r == self.bounds_spec(),
    {
        Rect { x: self.position.x, y: self.position.y, width: self.size.x, height: self.size.y }
    }

    /// The centre of the entity: its position plus half its size.
    pub fn centre(&self) -> (r: Vec2)
        requires
            self.wf(),
            self.centre_x() <= i64::MAX,
            self.centre_y() <= i64::MAX,
        ensures
            r.x == self.centre_x(),
            r.y == self.centre_y(),
    {
        Vec2 { x: self.position.x + self.size.x / 2, y: self.position.y + self.size.y / 2 }
    }

    /// Places the entity in the middle of a playfield of the given size.
    pub fn center(&mut self, field_width: i64, field_height: i64)
        requires
            field_width >= 0,
            field_height >= 0,
            old(self).wf(),
        ensures
            final(self).position.x == centred_start(field_width as int, old(self).size.x as int),
            final(self).position.y == centred_start(field_height as int, old(self).size.y as int),
            final(self).name == old(self).name,
            final(self).size == old(self).size,
            final(self).velocity == old(self).velocity,
    {
        self.position = Vec2 {
            x: field_width / 2 - self.size.x / 2,
            y: field_height / 2 - self.size.y / 2,
        };
    }
}

} // verus!
