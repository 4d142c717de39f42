use vstd::prelude::*;

use core::ops::Neg;

use crate::flint::{fadd, fdiv, fmul, fneg, fsub, isqrt, mul_raw, sin_cos_raw, Flint, DEG2RAD_RAW};

verus! {

/// A two-dimensional vector over a numeric type.
#[derive(Copy, Clone, Debug, PartialEq, Eq, Structural)]
pub struct Vec2<T> {
    pub x: T,
    pub y: T,
}

impl<T> Vec2<T> {
    pub fn new(x: T, y: T) -> (r: Vec2<T>)
        ensures
            r.x == x,
            r.y == y,
    {
        Vec2 { x, y }
    }
}

/// The dot product, each step as the saturating `Flint` operations compute it.
pub open spec fn dot_spec(a: Vec2<Flint>, b: Vec2<Flint>) -> Flint {
    fadd(fmul(a.x, b.x), fmul(a.y, b.y))
}

/// The length as `len` computes it: the fixed-point square root of the squared length.
pub open spec fn len_spec(a: Vec2<Flint>) -> Flint {
    let n = dot_spec(a, a);
    if n.raw <= 0 {
        Flint { raw: 0 }
    } else {
        Flint { raw: (256 * isqrt(n.raw as int)) as i32 }
    }
}

/// The vector divided by its length, or the zero vector when the length is zero.
pub open spec fn normalized_spec(a: Vec2<Flint>) -> Vec2<Flint> {
    let len = len_spec(a);
    if len.raw == 0 {
        Vec2 { x: Flint { raw: 0 }, y: Flint { raw: 0 } }
    } else {
        Vec2 { x: fdiv(a.x, len), y: fdiv(a.y, len) }
    }
}

/// Componentwise saturating sum.
pub open spec fn vadd(a: Vec2<Flint>, b: Vec2<Flint>) -> Vec2<Flint> {
    Vec2 { x: fadd(a.x, b.x), y: fadd(a.y, b.y) }
}

/// Componentwise saturating difference.
pub open spec fn vsub(a: Vec2<Flint>, b: Vec2<Flint>) -> Vec2<Flint> {
    Vec2 { x: fsub(a.x, b.x), y: fsub(a.y, b.y) }
}

/// Both components multiplied by `s`.
pub open spec fn vscale(a: Vec2<Flint>, s: Flint) -> Vec2<Flint> {
    Vec2 { x: fmul(a.x, s), y: fmul(a.y, s) }
}

/// `a` turned by the unit direction `theta` (complex multiplication).
pub open spec fn rotated_v_spec(a: Vec2<Flint>, theta: Vec2<Flint>) -> Vec2<Flint> {
    Vec2 {
        x: fsub(fmul(a.x, theta.x), fmul(a.y, theta.y)),
        y: fadd(fmul(a.x, theta.y), fmul(a.y, theta.x)),
    }
}

/// The unit direction of an angle given in degrees, as `sin_cos` computes it.
pub open spec fn direction_of_degrees(degrees: Flint) -> Vec2<Flint> {
    let (s, c) = sin_cos_raw(mul_raw(degrees.raw as int, DEG2RAD_RAW as int));
    Vec2 { x: Flint { raw: c as i32 }, y: Flint { raw: s as i32 } }
}

impl Vec2<Flint> {
    pub fn zero() -> (r: Vec2<Flint>)
        ensures
            r.x.raw == 0,
            r.y.raw == 0,
    {
        Vec2 { x: Flint::zero(), y: Flint::zero() }
    }

    /// The vector turned a quarter counter-clockwise: `(-y, x)`.
    pub fn perp(&self) -> (r: Vec2<Flint>)
        ensures
            r.x == fneg(self.y),
            r.y == self.x,
    {
        Vec2 { x: self.y.neg(), y: self.x }
    }

    pub fn dot(&self, v: &Vec2<Flint>) -> (r: Flint)
        ensures
            r == dot_spec(*self, *v),
    {
        self.x * v.x + self.y * v.y
    }

    /// The squared length, `self . self`.
    pub fn len_sqr(&self) -> (r: Flint)
        ensures
            r == dot_spec(*self, *self),
    {
        self.dot(self)
    }

    /// The length: the fixed-point square root of the squared length.
    pub fn len(&self) -> (r: Flint)
        ensures
            r == len_spec(*self),
    {
        self.len_sqr().sqrt()
    }

    /// The vector divided by its length; the zero vector when the length is zero.
    pub fn normalized(&self) -> (r: Vec2<Flint>)
        ensures
            r == normalized_spec(*self),
    {
        let len = self.len();
        if len.raw == 0 {
            return Vec2::zero();
        }
        Vec2 { x: self.x / len, y: self.y / len }
    }

    /// The vector turned by the unit direction `theta`.
    pub fn rotated_v(&self, theta: Vec2<Flint>) -> (r: Vec2<Flint>)
        ensures
            r == rotated_v_spec(*self, theta),
    {
        Vec2 {
            x: self.x * theta.x - self.y * theta.y,
            y: self.x * theta.y + self.y * theta.x,
        }
    }

    /// The vector turned by an angle in degrees.
    pub fn rotated(&self, degrees: Flint) -> (r: Vec2<Flint>)
        ensures
            r == rotated_v_spec(*self, direction_of_degrees(degrees)),
    {
        let radians = degrees.to_radians();
        let (sin, cos) = radians.sin_cos();
        let x = self.x * cos - self.y * sin;
        let y = self.x * sin + self.y * cos;
        Vec2 { x, y }
    }

    /// The vector scaled by `s`.
    pub fn scaled(&self, s: Flint) -> (r: Vec2<Flint>)
        ensures
            r == vscale(*self, s),
    {
        Vec2 { x: self.x * s, y: self.y * s }
    }
}

impl core::ops::Add for Vec2<Flint> {
    type Output = Vec2<Flint>;

    fn add(self, rhs: Vec2<Flint>) -> (r: Vec2<Flint>)
        ensures
            r == vadd(self, rhs),
    {
        Vec2 { x: self.x + rhs.x, y: self.y + rhs.y }
    }
}

impl vstd::std_specs::ops::AddSpecImpl for Vec2<Flint> {
    open spec fn obeys_add_spec() -> bool {
        true
    }

    open spec fn add_req(self, rhs: Vec2<Flint>) -> bool {
        true
    }

    open spec fn add_spec(self, rhs: Vec2<Flint>) -> Vec2<Flint> {
        vadd(self, rhs)
    }
}

impl core::ops::Sub for Vec2<Flint> {
    type Output = Vec2<Flint>;

    fn sub(self, rhs: Vec2<Flint>) -> (r: Vec2<Flint>)
        ensures
            r == vsub(self, rhs),
    {
        Vec2 { x: self.x - rhs.x, y: self.y - rhs.y }
    }
}

impl vstd::std_specs::ops::SubSpecImpl for Vec2<Flint> {
    open spec fn obeys_sub_spec() -> bool {
        true
    }

    open spec fn sub_req(self, rhs: Vec2<Flint>) -> bool {
        true
    }

    open spec fn sub_spec(self, rhs: Vec2<Flint>) -> Vec2<Flint> {
        vsub(self, rhs)
    }
}

} // verus!
