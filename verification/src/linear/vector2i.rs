//! The two-component integer vector.

use vstd::prelude::*;
use std::ops::{Add, AddAssign, Div, DivAssign, Mul, MulAssign, Neg, Sub, SubAssign};
use vstd::std_specs::cmp::PartialEqSpecImpl;
use vstd::std_specs::ops::{AddSpecImpl, DivSpecImpl, MulSpecImpl, NegSpecImpl, SubSpecImpl};
use crate::linear::model::IntVec2;

verus! {

/// A vector of two 64-bit integers. Any pair of values is a valid vector.
#[derive(Copy, Clone, Debug)]
pub struct Vector2i {
    pub x: i64,
    pub y: i64,
}

impl View for Vector2i {
    type V = IntVec2;

    open spec fn view(&self) -> IntVec2 {
        IntVec2 { x: self.x as int, y: self.y as int }
    }
}

impl Vector2i {
    /// The vector that holds the components of `m`, for an `m` that fits.
    pub open spec fn of(m: IntVec2) -> Vector2i {
        Vector2i { x: m.x as i64, y: m.y as i64 }
    }

    /// Create a new vector
    pub fn new(x: i64, y: i64) -> (v: Vector2i)
        ensures
            v.x == x,
            v.y == y,
    {
        Vector2i { x, y }
    }

    /// Dot product. Each product, and each partial sum taken from the first
    /// component on, must fit in an `i64`.
    pub fn dot(&self, other: &Vector2i) -> (d: i64)
        requires
            self@.dot_fits(other@),
        ensures
            d == self@.dot(other@),
    {
        self.x * other.x + self.y * other.y
    }
}

// COMPARISON

impl PartialEq<Vector2i> for Vector2i {
    /// Whether every component equals its counterpart.
    fn eq(&self, other: &Vector2i) -> (r: bool) {
        self.x == other.x && self.y == other.y
    }

    /// Whether some component differs from its counterpart.
    fn ne(&self, other: &Vector2i) -> (r: bool) {
        self.x != other.x || self.y != other.y
    }
}

impl PartialEqSpecImpl<Vector2i> for Vector2i {
    open spec fn obeys_eq_spec() -> bool {
        true
    }

    open spec fn eq_spec(&self, other: &Vector2i) -> bool {
        self@ == other@
    }
}

// ADDITION

impl Add<Vector2i> for Vector2i {
    type Output = Vector2i;

    /// Component-wise sum. Every sum must fit in an `i64`.
    fn add(self, rhs: Vector2i) -> (ret: Vector2i)
        ensures
            ret@ == self@.plus(rhs@),
    {
        Vector2i { x: self.x + rhs.x, y: self.y + rhs.y }
    }
}

impl AddSpecImpl<Vector2i> for Vector2i {
    open spec fn obeys_add_spec() -> bool {
        true
    }

    open spec fn add_req(self, rhs: Vector2i) -> bool {
        self@.plus(rhs@).fits()
    }

    open spec fn add_spec(self, rhs: Vector2i) -> Vector2i {
        Vector2i::of(self@.plus(rhs@))
    }
}

impl AddAssign<Vector2i> for Vector2i {
    /// Adds `rhs` to this vector, component by component. Every sum must fit
    /// in an `i64`.
    fn add_assign(&mut self, rhs: Vector2i)
        requires
            old(self)@.plus(rhs@).fits(),
        ensures
            final(self)@ == old(self)@.plus(rhs@),
    {
        self.x += rhs.x;
        self.y += rhs.y;
    }
}

// SUBTRACTION

impl Sub<Vector2i> for Vector2i {
    type Output = Vector2i;

    /// Component-wise difference. Every difference must fit in an `i64`.
    fn sub(self, rhs: Vector2i) -> (ret: Vector2i)
        ensures
            ret@ == self@.minus(rhs@),
    {
        Vector2i { x: self.x - rhs.x, y: self.y - rhs.y }
    }
}

impl SubSpecImpl<Vector2i> for Vector2i {
    open spec fn obeys_sub_spec() -> bool {
        true
    }

    open spec fn sub_req(self, rhs: Vector2i) -> bool {
        self@.minus(rhs@).fits()
    }

    open spec fn sub_spec(self, rhs: Vector2i) -> Vector2i {
        Vector2i::of(self@.minus(rhs@))
    }
}

impl SubAssign<Vector2i> for Vector2i {
    /// Subtracts `rhs` from this vector, component by component. Every
    /// difference must fit in an `i64`.
    fn sub_assign(&mut self, rhs: Vector2i)
        requires
            old(self)@.minus(rhs@).fits(),
        ensures
            final(self)@ == old(self)@.minus(rhs@),
    {
        self.x -= rhs.x;
        self.y -= rhs.y;
    }
}

// MULTIPLICATION

impl Mul<Vector2i> for Vector2i {
    type Output = Vector2i;

    /// Component-wise product. Every product must fit in an `i64`.
    fn mul(self, rhs: Vector2i) -> (ret: Vector2i)
        ensures
            ret@ == self@.times(rhs@),
    {
        Vector2i { x: self.x * rhs.x, y: self.y * rhs.y }
    }
}

impl MulSpecImpl<Vector2i> for Vector2i {
    open spec fn obeys_mul_spec() -> bool {
        true
    }

    open spec fn mul_req(self, rhs: Vector2i) -> bool {
        self@.times(rhs@).fits()
    }

    open spec fn mul_spec(self, rhs: Vector2i) -> Vector2i {
        Vector2i::of(self@.times(rhs@))
    }
}

impl Mul<i64> for Vector2i {
    type Output = Vector2i;

    /// Every component multiplied by `rhs`. Every product must fit in an `i64`.
    fn mul(self, rhs: i64) -> (ret: Vector2i)
        ensures
            ret@ == self@.scale(rhs as int),
    {
        Vector2i { x: self.x * rhs, y: self.y * rhs }
    }
}

impl MulSpecImpl<i64> for Vector2i {
    open spec fn obeys_mul_spec() -> bool {
        true
    }

    open spec fn mul_req(self, rhs: i64) -> bool {
        self@.scale(rhs as int).fits()
    }

    open spec fn mul_spec(self, rhs: i64) -> Vector2i {
        Vector2i::of(self@.scale(rhs as int))
    }
}

impl Mul<Vector2i> for i64 {
    type Output = Vector2i;

    /// Every component of `rhs` multiplied by this scalar: the same vector as
    /// `rhs * self`. Every product must fit in an `i64`.
    fn mul(self, rhs: Vector2i) -> (ret: Vector2i)
        ensures
            ret@ == rhs@.scale(self as int),
    {
        proof {
            assert(self * rhs.x == rhs.x * self) by (nonlinear_arith);
            assert(self * rhs.y == rhs.y * self) by (nonlinear_arith);
        }
        Vector2i { x: self * rhs.x, y: self * rhs.y }
    }
}

impl MulSpecImpl<Vector2i> for i64 {
    open spec fn obeys_mul_spec() -> bool {
        true
    }

    open spec fn mul_req(self, rhs: Vector2i) -> bool {
        rhs@.scale(self as int).fits()
    }

    open spec fn mul_spec(self, rhs: Vector2i) -> Vector2i {
        Vector2i::of(rhs@.scale(self as int))
    }
}

impl MulAssign<Vector2i> for Vector2i {
    /// Multiplies this vector by `rhs`, component by component. Every product
    /// must fit in an `i64`.
    fn mul_assign(&mut self, rhs: Vector2i)
        requires
            old(self)@.times(rhs@).fits(),
        ensures
            final(self)@ == old(self)@.times(rhs@),
    {
        self.x *= rhs.x;
        self.y *= rhs.y;
    }
}

impl MulAssign<i64> for Vector2i {
    /// Multiplies every component by `rhs`. Every product must fit in an `i64`.
    fn mul_assign(&mut self, rhs: i64)
        requires
            old(self)@.scale(rhs as int).fits(),
        ensures
            final(self)@ == old(self)@.scale(rhs as int),
    {
        self.x *= rhs;
        self.y *= rhs;
    }
}

// DIVISION

impl Div<Vector2i> for Vector2i {
    type Output = Vector2i;

    /// Component-wise quotient, rounded toward zero. No component of `rhs` may
    /// be zero, and every quotient must fit in an `i64`.
    fn div(self, rhs: Vector2i) -> (ret: Vector2i)
        ensures
            ret@ == self@.over(rhs@),
    {
        Vector2i { x: self.x / rhs.x, y: self.y / rhs.y }
    }
}

impl DivSpecImpl<Vector2i> for Vector2i {
    open spec fn obeys_div_spec() -> bool {
        true
    }

    open spec fn div_req(self, rhs: Vector2i) -> bool {
        rhs@.nonzero() && self@.over(rhs@).fits()
    }

    open spec fn div_spec(self, rhs: Vector2i) -> Vector2i {
        Vector2i::of(self@.over(rhs@))
    }
}

impl Div<i64> for Vector2i {
    type Output = Vector2i;

    /// Every component divided by `rhs`, rounded toward zero. `rhs` may not be
    /// zero, and every quotient must fit in an `i64`.
    fn div(self, rhs: i64) -> (ret: Vector2i)
        ensures
            ret@ == self@.shrink(rhs as int),
    {
        Vector2i { x: self.x / rhs, y: self.y / rhs }
    }
}

impl DivSpecImpl<i64> for Vector2i {
    open spec fn obeys_div_spec() -> bool {
        true
    }

    open spec fn div_req(self, rhs: i64) -> bool {
        rhs != 0 && self@.shrink(rhs as int).fits()
    }

    open spec fn div_spec(self, rhs: i64) -> Vector2i {
        Vector2i::of(self@.shrink(rhs as int))
    }
}

impl Div<Vector2i> for i64 {
    type Output = Vector2i;

    /// This scalar divided by every component of `rhs`, rounded toward zero.
    /// No component of `rhs` may be zero, and every quotient must fit in an `i64`.
    fn div(self, rhs: Vector2i) -> (ret: Vector2i)
        ensures
            ret@ == IntVec2::splat(self as int).over(rhs@),
    {
        Vector2i { x: self / rhs.x, y: self / rhs.y }
    }
}

impl DivSpecImpl<Vector2i> for i64 {
    open spec fn obeys_div_spec() -> bool {
        true
    }

    open spec fn div_req(self, rhs: Vector2i) -> bool {
        rhs@.nonzero() && IntVec2::splat(self as int).over(rhs@).fits()
    }

    open spec fn div_spec(self, rhs: Vector2i) -> Vector2i {
        Vector2i::of(IntVec2::splat(self as int).over(rhs@))
    }
}

impl DivAssign<Vector2i> for Vector2i {
    /// Divides this vector by `rhs`, component by component, rounding toward
    /// zero. No component of `rhs` may be zero, and every quotient must fit in
    /// an `i64`.
    fn div_assign(&mut self, rhs: Vector2i)
        requires
            rhs@.nonzero(),
            old(self)@.over(rhs@).fits(),
        ensures
            final(self)@ == old(self)@.over(rhs@),
    {
        self.x = self.x / rhs.x;
        self.y = self.y / rhs.y;
    }
}

// NEGATION

impl Neg for Vector2i {
    type Output = Vector2i;

    /// Every component with its sign reversed. No component may be the least
    /// `i64`, which has no negation.
    fn neg(self) -> (ret: Vector2i)
        ensures
            ret@ == self@.negate(),
    {
        Vector2i { x: -self.x, y: -self.y }
    }
}

impl NegSpecImpl for Vector2i {
    open spec fn obeys_neg_spec() -> bool {
        true
    }

    open spec fn neg_req(self) -> bool {
        self@.negate().fits()
    }

    open spec fn neg_spec(self) -> Vector2i {
        Vector2i::of(self@.negate())
    }
}

} // verus!
