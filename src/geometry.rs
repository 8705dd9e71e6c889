use vstd::prelude::*;

verus! {

/// Number of fixed-point units in one world unit (positions are kept in thousandths).
pub const UNITS_PER_WORLD_UNIT: i64 = 1000;

/// Largest magnitude of a coordinate that the camera accepts as input, in
/// fixed-point units (four billion world units).
pub const COORD_LIMIT: i64 = 4_000_000_000_000;

/// A point of world space, each coordinate in thousandths of a world unit.
#[derive(Clone, Copy, Debug, PartialEq, Eq, Structural)]
pub struct Point3 {
    pub x: i64,
    pub y: i64,
    pub z: i64,
}

impl Point3 {
    /// Every coordinate lies within `COORD_LIMIT` of the origin.
    pub open spec fn in_range(self) -> bool {
        &&& -COORD_LIMIT <= self.x <= COORD_LIMIT
        &&& -COORD_LIMIT <= self.y <= COORD_LIMIT
        &&& -COORD_LIMIT <= self.z <= COORD_LIMIT
    }

    pub open spec fn is_origin(self) -> bool {
        self.x == 0 && self.y == 0 && self.z == 0
    }

    pub fn new(x: i64, y: i64, z: i64) -> (p: Point3)
        ensures
            p.x == x,
            p.y == y,
            p.z == z,
    {
        Point3 { x, y, z }
    }

    /// The origin of world space.
    pub fn origin() -> (p: Point3)
        ensures
            p.is_origin(),
    {
        Point3 { x: 0, y: 0, z: 0 }
    }

    /// Tests `in_range`.
    pub fn is_in_range(&self) -> (r: bool)
        ensures
            r == self.in_range(),
    {
        -COORD_LIMIT <= self.x && self.x <= COORD_LIMIT && -COORD_LIMIT <= self.y && self.y
            <= COORD_LIMIT && -COORD_LIMIT <= self.z && self.z <= COORD_LIMIT
    }
}

/// Squared Euclidean length of the vector `(dx, dy, dz)`.
pub open spec fn length_squared(dx: int, dy: int, dz: int) -> int {
    dx * dx + dy * dy + dz * dz
}

} // verus!
