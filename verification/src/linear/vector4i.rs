//! The four-component integer vector.

use vstd::prelude::*;
use std::ops::{Add, AddAssign, Div, DivAssign, Mul, MulAssign, Neg, Sub, SubAssign};
use vstd::std_specs::cmp::PartialEqSpecImpl;
use vstd::std_specs::convert::FromSpecImpl;
use vstd::std_specs::ops::{AddSpecImpl, DivSpecImpl, MulSpecImpl, NegSpecImpl, SubSpecImpl};
use crate::linear::model::IntVec4;

verus! {

/// A vector of four 64-bit integers. Any quadruple of values is a valid vector.
#[derive(Copy, Clone, Debug)]
pub struct Vector4i {
    pub x: i64,
    pub y: i64,
    pub z: i64,
    pub w: i64,
}

impl View for Vector4i {
    type V = IntVec4;

    open spec fn view(&self) -> IntVec4 {
        IntVec4 { x: self.x as int, y: self.y as int, z: self.z as int, w: self.w as int }
    }
}

impl Vector4i {
    /// The vector that holds the components of `m`, for an `m` that fits.
    pub open spec fn of(m: IntVec4) -> Vector4i {
        Vector4i { x: m.x as i64, y: m.y as i64, z: m.z as i64, w: m.w as i64 }
    }

    /// Create a new vector
    pub fn new(x: i64, y: i64, z: i64, w: i64) -> (v: Vector4i)
        ensures
            v.x == x,
            v.y == y,
            v.z == z,
            v.w == w,
    {
        Vector4i { x, y, z, w }
    }

    /// Dot product. Each product, and each partial sum taken from the first
    /// component on, must fit in an `i64`.
    pub fn dot(&self, other: &Vector4i) -> (d: i64)
        requires
            self@.dot_fits(other@),
        ensures
            d == self@.dot(other@),
    {
        self.x * other.x + self.y * other.y + self.z * other.z + self.w * other.w
    }
}

// COMPARISON

impl PartialEq<Vector4i> for Vector4i {
    /// Whether every component equals its counterpart.
    fn eq(&self, other: &Vector4i) -> (r: bool) {
        self.x == other.x && self.y == other.y && self.z == other.z && self.w == other.w
    }

    /// Whether some component differs from its counterpart.
    fn ne(&self, other: &Vector4i) -> (r: bool) {
        self.x != other.x || self.y != other.y || self.z != other.z || self.w != other.w
    }
}

impl PartialEqSpecImpl<Vector4i> for Vector4i {
    open spec fn obeys_eq_spec() -> bool {
        true
    }

    open spec fn eq_spec(&self, other: &Vector4i) -> bool {
        self@ == other@
    }
}

// ADDITION

impl Add<Vector4i> for Vector4i {
    type Output = Vector4i;

    /// Component-wise sum. Every sum must fit in an `i64`.
    fn add(self, rhs: Vector4i) -> (ret: Vector4i)
        ensures
            ret@ == self@.plus(rhs@),
    {
        Vector4i { x: self.x + rhs.x, y: self.y + rhs.y, z: self.z + rhs.z, w: self.w + rhs.w }
    }
}

impl AddSpecImpl<Vector4i> for Vector4i {
    open spec fn obeys_add_spec() -> bool {
        true
    }

    open spec fn add_req(self, rhs: Vector4i) -> bool {
        self@.plus(rhs@).fits()
    }

    open spec fn add_spec(self, rhs: Vector4i) -> Vector4i {
        Vector4i::of(self@.plus(rhs@))
    }
}

impl AddAssign<Vector4i> for Vector4i {
    /// Adds `rhs` to this vector, component by component. Every sum must fit
    /// in an `i64`.
    fn add_assign(&mut self, rhs: Vector4i)
        requires
            old(self)@.plus(rhs@).fits(),
        ensures
            final(self)@ == old(self)@.plus(rhs@),
    {
        self.x += rhs.x;
        self.y += rhs.y;
        self.z += rhs.z;
        self.w += rhs.w;
    }
}

// SUBTRACTION

impl Sub<Vector4i> for Vector4i {
    type Output = Vector4i;

    /// Component-wise difference. Every difference must fit in an `i64`.
    fn sub(self, rhs: Vector4i) -> (ret: Vector4i)
        ensures
            ret@ == self@.minus(rhs@),
    {
        Vector4i { x: self.x - rhs.x, y: self.y - rhs.y, z: self.z - rhs.z, w: self.w - rhs.w }
    }
}

impl SubSpecImpl<Vector4i> for Vector4i {
    open spec fn obeys_sub_spec() -> bool {
        true
    }

    open spec fn sub_req(self, rhs: Vector4i) -> bool {
        self@.minus(rhs@).fits()
    }

    open spec fn sub_spec(self, rhs: Vector4i) -> Vector4i {
        Vector4i::of(self@.minus(rhs@))
    }
}

impl SubAssign<Vector4i> for Vector4i {
    /// Subtracts `rhs` from this vector, component by component. Every
    /// difference must fit in an `i64`.
    fn sub_assign(&mut self, rhs: Vector4i)
        requires
            old(self)@.minus(rhs@).fits(),
        ensures
            final(self)@ == old(self)@.minus(rhs@),
    {
        self.x -= rhs.x;
        self.y -= rhs.y;
        self.z -= rhs.z;
        self.w -= rhs.w;
    }
}

// MULTIPLICATION

impl Mul<Vector4i> for Vector4i {
    type Output = Vector4i;

    /// Component-wise product. Every product must fit in an `i64`.
    fn mul(self, rhs: Vector4i) -> (ret: Vector4i)
        ensures
            ret@ == self@.times(rhs@),
    {
        Vector4i { x: self.x * rhs.x, y: self.y * rhs.y, z: self.z * rhs.z, w: self.w * rhs.w }
    }
}

impl MulSpecImpl<Vector4i> for Vector4i {
    open spec fn obeys_mul_spec() -> bool {
        true
    }

    open spec fn mul_req(self, rhs: Vector4i) -> bool {
        self@.times(rhs@).fits()
    }

    open spec fn mul_spec(self, rhs: Vector4i) -> Vector4i {
        Vector4i::of(self@.times(rhs@))
    }
}

impl Mul<i64> for Vector4i {
    type Output = Vector4i;

    /// Every component multiplied by `rhs`. Every product must fit in an `i64`.
    fn mul(self, rhs: i64) -> (ret: Vector4i)
        ensures
            ret@ == self@.scale(rhs as int),
    {
        Vector4i { x: self.x * rhs, y: self.y * rhs, z: self.z * rhs, w: self.w * rhs }
    }
}

impl MulSpecImpl<i64> for Vector4i {
    open spec fn obeys_mul_spec() -> bool {
        true
    }

    open spec fn mul_req(self, rhs: i64) -> bool {
        self@.scale(rhs as int).fits()
    }

    open spec fn mul_spec(self, rhs: i64) -> Vector4i {
        Vector4i::of(self@.scale(rhs as int))
    }
}

impl Mul<Vector4i> for i64 {
    type Output = Vector4i;

    /// Every component of `rhs` multiplied by this scalar: the same vector as
    /// `rhs * self`. Every product must fit in an `i64`.
    fn mul(self, rhs: Vector4i) -> (ret: Vector4i)
        ensures
            ret@ == rhs@.scale(self as int),
    {
        proof {
            assert(self * rhs.x == rhs.x * self) by (nonlinear_arith);
            assert(self * rhs.y == rhs.y * self) by (nonlinear_arith);
            assert(self * rhs.z == rhs.z * self) by (nonlinear_arith);
            assert(self * rhs.w == rhs.w * self) by (nonlinear_arith);
        }
        Vector4i { x: self * rhs.x, y: self * rhs.y, z: self * rhs.z, w: self * rhs.w }
    }
}

impl MulSpecImpl<Vector4i> for i64 {
    open spec fn obeys_mul_spec() -> bool {
        true
    }

    open spec fn mul_req(self, rhs: Vector4i) -> bool {
        rhs@.scale(self as int).fits()
    }

    open spec fn mul_spec(self, rhs: Vector4i) -> Vector4i {
        Vector4i::of(rhs@.scale(self as int))
    }
}

impl MulAssign<Vector4i> for Vector4i {
    /// Multiplies this vector by `rhs`, component by component. Every product
    /// must fit in an `i64`.
    fn mul_assign(&mut self, rhs: Vector4i)
        requires
            old(self)@.times(rhs@).fits(),
        ensures
            final(self)@ == old(self)@.times(rhs@),
    {
        self.x *= rhs.x;
        self.y *= rhs.y;
        self.z *= rhs.z;
        self.w *= rhs.w;
    }
}

impl MulAssign<i64> for Vector4i {
    /// Multiplies every component by `rhs`. Every product must fit in an `i64`.
    fn mul_assign(&mut self, rhs: i64)
        requires
            old(self)@.scale(rhs as int).fits(),
        ensures
            final(self)@ == old(self)@.scale(rhs as int),
    {
        self.x *= rhs;
        self.y *= rhs;
        self.z *= rhs;
        self.w *= rhs;
    }
}

// DIVISION

impl Div<Vector4i> for Vector4i {
    type Output = Vector4i;

    /// Component-wise quotient, rounded toward zero. No component of `rhs` may
    /// be zero, and every quotient must fit in an `i64`.
    fn div(self, rhs: Vector4i) -> (ret: Vector4i)
        ensures
            ret@ == self@.over(rhs@),
    {
        Vector4i { x: self.x / rhs.x, y: self.y / rhs.y, z: self.z / rhs.z, w: self.w / rhs.w }
    }
}

impl DivSpecImpl<Vector4i> for Vector4i {
    open spec fn obeys_div_spec() -> bool {
        true
    }

    open spec fn div_req(self, rhs: Vector4i) -> bool {
        rhs@.nonzero() && self@.over(rhs@).fits()
    }

    open spec fn div_spec(self, rhs: Vector4i) -> Vector4i {
        Vector4i::of(self@.over(rhs@))
    }
}

impl Div<i64> for Vector4i {
    type Output = Vector4i;

    /// Every component divided by `rhs`, rounded toward zero. `rhs` may not be
    /// zero, and every quotient must fit in an `i64`.
    fn div(self, rhs: i64) -> (ret: Vector4i)
        ensures
            ret@ == self@.shrink(rhs as int),
    {
        Vector4i { x: self.x / rhs, y: self.y / rhs, z: self.z / rhs, w: self.w / rhs }
    }
}

impl DivSpecImpl<i64> for Vector4i {
    open spec fn obeys_div_spec() -> bool {
        true
    }

    open spec fn div_req(self, rhs: i64) -> bool {
        rhs != 0 && self@.shrink(rhs as int).fits()
    }

    open spec fn div_spec(self, rhs: i64) -> Vector4i {
        Vector4i::of(self@.shrink(rhs as int))
    }
}

impl Div<Vector4i> for i64 {
    type Output = Vector4i;

    /// This scalar divided by every component of `rhs`, rounded toward zero.
    /// No component of `rhs` may be zero, and every quotient must fit in an `i64`.
    fn div(self, rhs: Vector4i) -> (ret: Vector4i)
        ensures
            ret@ == IntVec4::splat(self as int).over(rhs@),
    {
        Vector4i { x: self / rhs.x, y: self / rhs.y, z: self / rhs.z, w: self / rhs.w }
    }
}

impl DivSpecImpl<Vector4i> for i64 {
    open spec fn obeys_div_spec() -> bool {
        true
    }

    open spec fn div_req(self, rhs: Vector4i) -> bool {
        rhs@.nonzero() && IntVec4::splat(self as int).over(rhs@).fits()
    }

    open spec fn div_spec(self, rhs: Vector4i) -> Vector4i {
        Vector4i::of(IntVec4::splat(self as int).over(rhs@))
    }
}

impl DivAssign<Vector4i> for Vector4i {
    /// Divides this vector by `rhs`, component by component, rounding toward
    /// zero. No component of `rhs` may be zero, and every quotient must fit in
    /// an `i64`.
    fn div_assign(&mut self, rhs: Vector4i)
        requires
            rhs@.nonzero(),
            old(self)@.over(rhs@).fits(),
        ensures
            final(self)@ == old(self)@.over(rhs@),
    {
        self.x = self.x / rhs.x;
        self.y = self.y / rhs.y;
        self.z = self.z / rhs.z;
        self.w = self.w / rhs.w;
    }
}

// NEGATION

impl Neg for Vector4i {
    type Output = Vector4i;

    /// Every component with its sign reversed. No component may be the least
    /// `i64`, which has no negation.
    fn neg(self) -> (ret: Vector4i)
        ensures
            ret@ == self@.negate(),
    {
        Vector4i { x: -self.x, y: -self.y, z: -self.z, w: -self.w }
    }
}

impl NegSpecImpl for Vector4i {
    open spec fn obeys_neg_spec() -> bool {
        true
    }

    open spec fn neg_req(self) -> bool {
        self@.negate().fits()
    }

    open spec fn neg_spec(self) -> Vector4i {
        Vector4i::of(self@.negate())
    }
}

// CONVERSION

impl From<[i64; 4]> for Vector4i {
    /// The vector whose components are the entries of `array`, in order.
    fn from(array: [i64; 4]) -> (v: Vector4i)
        ensures
            v.x == array[0],
            v.y == array[1],
            v.z == array[2],
            v.w == array[3],
    {
        Vector4i { x: array[0], y: array[1], z: array[2], w: array[3] }
    }
}

impl FromSpecImpl<[i64; 4]> for Vector4i {
    open spec fn obeys_from_spec() -> bool {
        true
    }

    open spec fn from_spec(array: [i64; 4]) -> Vector4i {
        Vector4i { x: array[0], y: array[1], z: array[2], w: array[3] }
    }
}

impl From<Vector4i> for [i64; 4] {
    /// The components of `vector`, in order.
    fn from(vector: Vector4i) -> (array: [i64; 4])
        ensures
            array@ == seq![vector.x, vector.y, vector.z, vector.w],
    {
        [vector.x, vector.y, vector.z, vector.w]
    }
}

impl FromSpecImpl<Vector4i> for [i64; 4] {
    open spec fn obeys_from_spec() -> bool {
        true
    }

    open spec fn from_spec(vector: Vector4i) -> [i64; 4] {
        [vector.x, vector.y, vector.z, vector.w]
    }
}

} // verus!
