use vstd::prelude::*;

verus! {

/// A two-dimensional integer vector.
#[derive(Clone, Copy, Debug, PartialEq, Eq, Structural)]
pub struct Vector2 {
    pub x: i32,
    pub y: i32,
}

/// The sum of two coordinates, clamped to the range of `i32`.
pub open spec fn sat_add(a: i32, b: i32) -> i32 {
    if a + b > i32::MAX {
        i32::MAX
    } else if a + b < i32::MIN {
        i32::MIN
    } else {
        (a + b) as i32
    }
}

/// Componentwise saturating sum of two vectors.
pub open spec fn vec_add(a: Vector2, b: Vector2) -> Vector2 {
    Vector2 { x: sat_add(a.x, b.x), y: sat_add(a.y, b.y) }
}

fn add_coord(a: i32, b: i32) -> (r: i32)
    ensures
        r == sat_add(a, b),
{
    let s: i64 = a as i64 + b as i64;
    if s > i32::MAX as i64 {
        i32::MAX
    } else if s < i32::MIN as i64 {
        i32::MIN
    } else {
        s as i32
    }
}

impl Vector2 {
    pub fn new(x: i32, y: i32) -> (r: Vector2)
        ensures
            r.x == x,
            r.y == y,
    {
        Vector2 { x: x, y: y }
    }

    /// The zero vector.
    pub fn zero() -> (r: Vector2)
        ensures
            r.x == 0,
            r.y == 0,
    {
        Vector2 { x: 0, y: 0 }
    }
}

impl std::ops::Add for Vector2 {
    type Output = Vector2;

    /// Componentwise sum; a coordinate that leaves the range of `i32` is
    /// clamped to its nearest bound.
    fn add(self, other: Vector2) -> (r: Vector2) {
        Vector2 { x: add_coord(self.x, other.x), y: add_coord(self.y, other.y) }
    }
}

impl vstd::std_specs::ops::AddSpecImpl for Vector2 {
    open spec fn obeys_add_spec() -> bool {
        true
    }

    open spec fn add_req(self, rhs: Vector2) -> bool {
        true
    }

    open spec fn add_spec(self, rhs: Vector2) -> Vector2 {
        vec_add(self, rhs)
    }
}

impl std::ops::AddAssign for Vector2 {
    /// In-place componentwise sum, with the same clamping as `+`.
    fn add_assign(&mut self, other: Vector2)
        ensures
            *final(self) == vec_add(*old(self), other),
    {
        let sum = *self + other;
        *self = sum;
    }
}

} // verus!
