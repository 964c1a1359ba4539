//! Narrowing conversions, which keep the leading components of a vector and
//! drop the rest.

use vstd::prelude::*;
use vstd::std_specs::convert::FromSpecImpl;
use crate::linear::vector2i::Vector2i;
use crate::linear::vector3i::Vector3i;
use crate::linear::vector4i::Vector4i;

verus! {

impl From<Vector4i> for Vector3i {
    /// The first three components of `v`.
    fn from(v: Vector4i) -> (r: Vector3i)
        ensures
            r@ == v@.xyz(),
    {
        Vector3i { x: v.x, y: v.y, z: v.z }
    }
}

impl FromSpecImpl<Vector4i> for Vector3i {
    open spec fn obeys_from_spec() -> bool {
        true
    }

    open spec fn from_spec(v: Vector4i) -> Vector3i {
        Vector3i { x: v.x, y: v.y, z: v.z }
    }
}

impl From<Vector4i> for Vector2i {
    /// The first two components of `v`.
    fn from(v: Vector4i) -> (r: Vector2i)
        ensures
            r@ == v@.xy(),
    {
        Vector2i { x: v.x, y: v.y }
    }
}

impl FromSpecImpl<Vector4i> for Vector2i {
    open spec fn obeys_from_spec() -> bool {
        true
    }

    open spec fn from_spec(v: Vector4i) -> Vector2i {
        Vector2i { x: v.x, y: v.y }
    }
}

impl From<Vector3i> for Vector2i {
    /// The first two components of `v`.
    fn from(v: Vector3i) -> (r: Vector2i)
        ensures
            r@ == v@.xy(),
    {
        Vector2i { x: v.x, y: v.y }
    }
}

impl FromSpecImpl<Vector3i> for Vector2i {
    open spec fn obeys_from_spec() -> bool {
        true
    }

    open spec fn from_spec(v: Vector3i) -> Vector2i {
        Vector2i { x: v.x, y: v.y }
    }
}

} // verus!
