use vstd::prelude::*;

verus! {

/// Every coordinate the toolkit stores is kept inside
/// `[-COORD_LIMIT, COORD_LIMIT]`, and every length inside
/// `[0, COORD_LIMIT]`; out-of-range input is clamped at the public entry
/// points, never rejected. The budget is far beyond any real viewport,
/// and it keeps every sum and difference of a handful of stored values
/// inside `i64`.
pub const COORD_LIMIT: i64 = 0x100_0000_0000;

/// A two-dimensional vector of pixel coordinates.
#[derive(Clone, Copy, PartialEq, Eq, Structural, Debug)]
pub struct Vec2 {
    pub x: i64,
    pub y: i64,
}

/// `v` pulled back into the coordinate budget.
pub open spec fn clamp_coord(v: int) -> i64 {
    if v < -COORD_LIMIT {
        (-COORD_LIMIT) as i64
    } else if v > COORD_LIMIT {
        COORD_LIMIT
    } else {
        v as i64
    }
}

/// `v` pulled back into the length budget: negative lengths clamp to
/// zero, oversized ones to the budget.
pub open spec fn clamp_size(v: int) -> i64 {
    if v < 0 {
        0
    } else if v > COORD_LIMIT {
        COORD_LIMIT
    } else {
        v as i64
    }
}

/// Executable form of [`clamp_coord`].
pub fn clamp_coord_exec(v: i64) -> (r: i64)
    ensures
        r == clamp_coord(v as int),
{
    if v < -COORD_LIMIT {
        -COORD_LIMIT
    } else if v > COORD_LIMIT {
        COORD_LIMIT
    } else {
        v
    }
}

/// Executable form of [`clamp_size`].
pub fn clamp_size_exec(v: i64) -> (r: i64)
    ensures
        r == clamp_size(v as int),
{
    if v < 0 {
        0
    } else if v > COORD_LIMIT {
        COORD_LIMIT
    } else {
        v
    }
}

impl Vec2 {
    /// The zero vector.
    pub fn zero() -> (r: Vec2)
        ensures
            r.x == 0 && r.y == 0,
    {
        Vec2 { x: 0, y: 0 }
    }

    /// Build a vector from its two components.
    pub fn new(x: i64, y: i64) -> (r: Vec2)
        ensures
            r.x == x && r.y == y,
    {
        Vec2 { x, y }
    }

    /// Both components inside the coordinate budget.
    pub open spec fn in_budget(self) -> bool {
        &&& -COORD_LIMIT <= self.x <= COORD_LIMIT
        &&& -COORD_LIMIT <= self.y <= COORD_LIMIT
    }
}

/// Whether two stored child indices are the same.
pub fn same_index(a: &Option<usize>, b: &Option<usize>) -> (r: bool)
    ensures
        r == (*a == *b),
{
    match (a, b) {
        (Some(i), Some(j)) => *i == *j,
        (None, None) => true,
        _ => false,
    }
}

} // verus!
