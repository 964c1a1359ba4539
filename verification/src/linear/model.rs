//! The mathematical counterparts of the vector types: tuples of unbounded
//! integers, on which every operation is total and exact.

use vstd::prelude::*;
use crate::linear::scalar::{in_i64, trunc_div};

verus! {

/// A point of the two-dimensional integer lattice.
pub struct IntVec2 {
    pub x: int,
    pub y: int,
}

impl IntVec2 {
    /// The vector whose components all equal `k`.
    pub open spec fn splat(k: int) -> IntVec2 {
        IntVec2 { x: k, y: k }
    }

    /// Component-wise sum.
    pub open spec fn plus(self, o: IntVec2) -> IntVec2 {
        IntVec2 { x: self.x + o.x, y: self.y + o.y }
    }

    /// Component-wise difference.
    pub open spec fn minus(self, o: IntVec2) -> IntVec2 {
        IntVec2 { x: self.x - o.x, y: self.y - o.y }
    }

    /// Component-wise product.
    pub open spec fn times(self, o: IntVec2) -> IntVec2 {
        IntVec2 { x: self.x * o.x, y: self.y * o.y }
    }

    /// Component-wise quotient, each rounded toward zero.
    pub open spec fn over(self, o: IntVec2) -> IntVec2 {
        IntVec2 { x: trunc_div(self.x, o.x), y: trunc_div(self.y, o.y) }
    }

    /// Every component multiplied by `k`.
    pub open spec fn scale(self, k: int) -> IntVec2 {
        IntVec2 { x: self.x * k, y: self.y * k }
    }

    /// Every component divided by `k`, rounded toward zero.
    pub open spec fn shrink(self, k: int) -> IntVec2 {
        IntVec2 { x: trunc_div(self.x, k), y: trunc_div(self.y, k) }
    }

    /// Every component with its sign reversed.
    pub open spec fn negate(self) -> IntVec2 {
        IntVec2 { x: -self.x, y: -self.y }
    }

    /// The dot product.
    pub open spec fn dot(self, o: IntVec2) -> int {
        self.x * o.x + self.y * o.y
    }

    /// Whether every component can be held by an `i64`.
    pub open spec fn fits(self) -> bool {
        in_i64(self.x) && in_i64(self.y)
    }

    /// Whether no component is zero, so that the vector can divide another.
    pub open spec fn nonzero(self) -> bool {
        self.x != 0 && self.y != 0
    }

    /// Whether the dot product with `o` can be accumulated in an `i64`: each
    /// product and each partial sum, taken from the first component on, fits.
    pub open spec fn dot_fits(self, o: IntVec2) -> bool {
        &&& in_i64(self.x * o.x)
        &&& in_i64(self.y * o.y)
        &&& in_i64(self.x * o.x + self.y * o.y)
    }
}

/// A point of the three-dimensional integer lattice.
pub struct IntVec3 {
    pub x: int,
    pub y: int,
    pub z: int,
}

impl IntVec3 {
    /// The vector whose components all equal `k`.
    pub open spec fn splat(k: int) -> IntVec3 {
        IntVec3 { x: k, y: k, z: k }
    }

    /// Component-wise sum.
    pub open spec fn plus(self, o: IntVec3) -> IntVec3 {
        IntVec3 { x: self.x + o.x, y: self.y + o.y, z: self.z + o.z }
    }

    /// Component-wise difference.
    pub open spec fn minus(self, o: IntVec3) -> IntVec3 {
        IntVec3 { x: self.x - o.x, y: self.y - o.y, z: self.z - o.z }
    }

    /// Component-wise product.
    pub open spec fn times(self, o: IntVec3) -> IntVec3 {
        IntVec3 { x: self.x * o.x, y: self.y * o.y, z: self.z * o.z }
    }

    /// Component-wise quotient, each rounded toward zero.
    pub open spec fn over(self, o: IntVec3) -> IntVec3 {
        IntVec3 { x: trunc_div(self.x, o.x), y: trunc_div(self.y, o.y), z: trunc_div(self.z, o.z) }
    }

    /// Every component multiplied by `k`.
    pub open spec fn scale(self, k: int) -> IntVec3 {
        IntVec3 { x: self.x * k, y: self.y * k, z: self.z * k }
    }

    /// Every component divided by `k`, rounded toward zero.
    pub open spec fn shrink(self, k: int) -> IntVec3 {
        IntVec3 { x: trunc_div(self.x, k), y: trunc_div(self.y, k), z: trunc_div(self.z, k) }
    }

    /// Every component with its sign reversed.
    pub open spec fn negate(self) -> IntVec3 {
        IntVec3 { x: -self.x, y: -self.y, z: -self.z }
    }

    /// The dot product.
    pub open spec fn dot(self, o: IntVec3) -> int {
        self.x * o.x + self.y * o.y + self.z * o.z
    }

    /// Whether every component can be held by an `i64`.
    pub open spec fn fits(self) -> bool {
        in_i64(self.x) && in_i64(self.y) && in_i64(self.z)
    }

    /// Whether no component is zero, so that the vector can divide another.
    pub open spec fn nonzero(self) -> bool {
        self.x != 0 && self.y != 0 && self.z != 0
    }

    /// Whether the dot product with `o` can be accumulated in an `i64`: each
    /// product and each partial sum, taken from the first component on, fits.
    pub open spec fn dot_fits(self, o: IntVec3) -> bool {
        &&& in_i64(self.x * o.x)
        &&& in_i64(self.y * o.y)
        &&& in_i64(self.x * o.x + self.y * o.y)
        &&& in_i64(self.z * o.z)
        &&& in_i64(self.x * o.x + self.y * o.y + self.z * o.z)
    }

    /// The first two components.
    pub open spec fn xy(self) -> IntVec2 {
        IntVec2 { x: self.x, y: self.y }
    }
}

/// A point of the four-dimensional integer lattice.
pub struct IntVec4 {
    pub x: int,
    pub y: int,
    pub z: int,
    pub w: int,
}

impl IntVec4 {
    /// The vector whose components all equal `k`.
    pub open spec fn splat(k: int) -> IntVec4 {
        IntVec4 { x: k, y: k, z: k, w: k }
    }

    /// Component-wise sum.
    pub open spec fn plus(self, o: IntVec4) -> IntVec4 {
        IntVec4 { x: self.x + o.x, y: self.y + o.y, z: self.z + o.z, w: self.w + o.w }
    }

    /// Component-wise difference.
    pub open spec fn minus(self, o: IntVec4) -> IntVec4 {
        IntVec4 { x: self.x - o.x, y: self.y - o.y, z: self.z - o.z, w: self.w - o.w }
    }

    /// Component-wise product.
    pub open spec fn times(self, o: IntVec4) -> IntVec4 {
        IntVec4 { x: self.x * o.x, y: self.y * o.y, z: self.z * o.z, w: self.w * o.w }
    }

    /// Component-wise quotient, each rounded toward zero.
    pub open spec fn over(self, o: IntVec4) -> IntVec4 {
        IntVec4 {
            x: trunc_div(self.x, o.x),
            y: trunc_div(self.y, o.y),
            z: trunc_div(self.z, o.z),
            w: trunc_div(self.w, o.w),
        }
    }

    /// Every component multiplied by `k`.
    pub open spec fn scale(self, k: int) -> IntVec4 {
        IntVec4 { x: self.x * k, y: self.y * k, z: self.z * k, w: self.w * k }
    }

    /// Every component divided by `k`, rounded toward zero.
    pub open spec fn shrink(self, k: int) -> IntVec4 {
        IntVec4 {
            x: trunc_div(self.x, k),
            y: trunc_div(self.y, k),
            z: trunc_div(self.z, k),
            w: trunc_div(self.w, k),
        }
    }

    /// Every component with its sign reversed.
    pub open spec fn negate(self) -> IntVec4 {
        IntVec4 { x: -self.x, y: -self.y, z: -self.z, w: -self.w }
    }

    /// The dot product.
    pub open spec fn dot(self, o: IntVec4) -> int {
        self.x * o.x + self.y * o.y + self.z * o.z + self.w * o.w
    }

    /// Whether every component can be held by an `i64`.
    pub open spec fn fits(self) -> bool {
        in_i64(self.x) && in_i64(self.y) && in_i64(self.z) && in_i64(self.w)
    }

    /// Whether no component is zero, so that the vector can divide another.
    pub open spec fn nonzero(self) -> bool {
        self.x != 0 && self.y != 0 && self.z != 0 && self.w != 0
    }

    /// Whether the dot product with `o` can be accumulated in an `i64`: each
    /// product and each partial sum, taken from the first component on, fits.
    pub open spec fn dot_fits(self, o: IntVec4) -> bool {
        &&& in_i64(self.x * o.x)
        &&& in_i64(self.y * o.y)
        &&& in_i64(self.x * o.x + self.y * o.y)
        &&& in_i64(self.z * o.z)
        &&& in_i64(self.x * o.x + self.y * o.y + self.z * o.z)
        &&& in_i64(self.w * o.w)
        &&& in_i64(self.x * o.x + self.y * o.y + self.z * o.z + self.w * o.w)
    }

    /// The first three components.
    pub open spec fn xyz(self) -> IntVec3 {
        IntVec3 { x: self.x, y: self.y, z: self.z }
    }

    /// The first two components.
    pub open spec fn xy(self) -> IntVec2 {
        IntVec2 { x: self.x, y: self.y }
    }
}

} // verus!
