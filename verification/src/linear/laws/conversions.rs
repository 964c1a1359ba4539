//! What the conversions keep: narrowing in two steps is narrowing in one,
//! narrowing goes through the component-wise operations, and an array
//! survives the passage through a vector.

use vstd::prelude::*;
use vstd::std_specs::convert::FromSpec;
use crate::linear::model::{IntVec3, IntVec4};
use crate::linear::vector2i::Vector2i;
use crate::linear::vector3i::Vector3i;
use crate::linear::vector4i::Vector4i;

verus! {

impl IntVec4 {
    /// Dropping the last component twice is dropping the last two.
    pub proof fn lemma_narrowing_composes(a: IntVec4)
        ensures
            a.xyz().xy() == a.xy(),
    {
    }

    /// The leading components of a sum, difference, product or quotient are
    /// the sum, difference, product or quotient of the leading components.
    pub proof fn lemma_narrowing_is_componentwise(a: IntVec4, b: IntVec4)
        ensures
            a.plus(b).xyz() == a.xyz().plus(b.xyz()),
            a.minus(b).xyz() == a.xyz().minus(b.xyz()),
            a.times(b).xyz() == a.xyz().times(b.xyz()),
            a.over(b).xyz() == a.xyz().over(b.xyz()),
            a.negate().xyz() == a.xyz().negate(),
    {
    }
}

impl IntVec3 {
    /// The leading components of a sum, difference, product or quotient are
    /// the sum, difference, product or quotient of the leading components.
    pub proof fn lemma_narrowing_is_componentwise(a: IntVec3, b: IntVec3)
        ensures
            a.plus(b).xy() == a.xy().plus(b.xy()),
            a.minus(b).xy() == a.xy().minus(b.xy()),
            a.times(b).xy() == a.xy().times(b.xy()),
            a.over(b).xy() == a.xy().over(b.xy()),
            a.negate().xy() == a.xy().negate(),
    {
    }
}

impl Vector4i {
    /// Narrowing to three components and then to two gives what narrowing to
    /// two components at once gives.
    pub proof fn lemma_from_composes(v: Vector4i)
        ensures
            Vector2i::from_spec(Vector3i::from_spec(v)) == Vector2i::from_spec(v),
    {
    }

    /// An array made into a vector and back is the same array, and a vector
    /// made into an array and back is the same vector.
    pub proof fn lemma_array_round_trip(array: [i64; 4], v: Vector4i)
        ensures
            <[i64; 4]>::from_spec(Vector4i::from_spec(array)) == array,
            Vector4i::from_spec(<[i64; 4]>::from_spec(v)) == v,
    {
        let back = <[i64; 4]>::from_spec(Vector4i::from_spec(array));
        assert(back@ =~= array@);
    }
}

} // verus!
