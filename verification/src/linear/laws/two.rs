//! The algebra of the two-component vector: first over the model, where it
//! holds of all integers, then over the machine type, where it holds as far
//! as the results fit.

use vstd::prelude::*;
use vstd::arithmetic::mul::{group_mul_is_commutative_and_distributive, lemma_mul_is_associative};
use vstd::std_specs::ops::{AddSpec, MulSpec};
use crate::linear::model::IntVec2;
use crate::linear::scalar::{lemma_square, lemma_trunc_div_fits, lemma_trunc_div_of_multiple};
use crate::linear::vector2i::Vector2i;

verus! {

impl IntVec2 {
    /// Addition does not depend on the order of its operands.
    pub proof fn lemma_plus_commutes(a: IntVec2, b: IntVec2)
        ensures
            a.plus(b) == b.plus(a),
    {
    }

    /// Addition does not depend on how its operands are grouped.
    pub proof fn lemma_plus_associates(a: IntVec2, b: IntVec2, c: IntVec2)
        ensures
            a.plus(b).plus(c) == a.plus(b.plus(c)),
    {
    }

    /// The zero vector is neutral for addition, and a vector minus itself is
    /// the zero vector.
    pub proof fn lemma_plus_zero(a: IntVec2)
        ensures
            a.plus(IntVec2::splat(0)) == a,
            a.minus(a) == IntVec2::splat(0),
    {
    }

    /// Subtracting a vector is adding its negation.
    pub proof fn lemma_minus_is_plus_negate(a: IntVec2, b: IntVec2)
        ensures
            a.minus(b) == a.plus(b.negate()),
    {
    }

    /// Negating twice gives the vector back.
    pub proof fn lemma_negate_involutive(a: IntVec2)
        ensures
            a.negate().negate() == a,
    {
    }

    /// The component-wise product does not depend on the order of its
    /// operands.
    pub proof fn lemma_times_commutes(a: IntVec2, b: IntVec2)
        ensures
            a.times(b) == b.times(a),
    {
        broadcast use group_mul_is_commutative_and_distributive;
    }

    /// Multiplying or dividing by a scalar is the component-wise operation
    /// with the vector that repeats the scalar.
    pub proof fn lemma_scalar_is_splat(a: IntVec2, k: int)
        ensures
            a.scale(k) == a.times(IntVec2::splat(k)),
            a.shrink(k) == a.over(IntVec2::splat(k)),
    {
    }

    /// Scalar multiplication distributes over the addition of vectors and
    /// over the addition of scalars.
    pub proof fn lemma_scale_distributes(a: IntVec2, b: IntVec2, j: int, k: int)
        ensures
            a.plus(b).scale(k) == a.scale(k).plus(b.scale(k)),
            a.scale(j + k) == a.scale(j).plus(a.scale(k)),
    {
        broadcast use group_mul_is_commutative_and_distributive;
    }

    /// Scaling twice is scaling by the product; scaling by one changes
    /// nothing and scaling by minus one negates.
    pub proof fn lemma_scale_composes(a: IntVec2, j: int, k: int)
        ensures
            a.scale(j).scale(k) == a.scale(j * k),
            a.scale(1) == a,
            a.scale(-1) == a.negate(),
    {
        lemma_mul_is_associative(a.x, j, k);
        lemma_mul_is_associative(a.y, j, k);
    }

    /// Dividing by a nonzero scalar undoes the multiplication by it.
    pub proof fn lemma_shrink_undoes_scale(a: IntVec2, k: int)
        requires
            k != 0,
        ensures
            a.scale(k).shrink(k) == a,
    {
        lemma_trunc_div_of_multiple(a.x, k);
        lemma_trunc_div_of_multiple(a.y, k);
    }

    /// The dot product does not depend on the order of its operands.
    pub proof fn lemma_dot_commutes(a: IntVec2, b: IntVec2)
        ensures
            a.dot(b) == b.dot(a),
    {
        broadcast use group_mul_is_commutative_and_distributive;
    }

    /// The dot product is linear in its first operand.
    pub proof fn lemma_dot_linear(a: IntVec2, b: IntVec2, c: IntVec2, k: int)
        ensures
            a.plus(b).dot(c) == a.dot(c) + b.dot(c),
            a.scale(k).dot(c) == k * a.dot(c),
    {
        broadcast use group_mul_is_commutative_and_distributive;
        lemma_mul_is_associative(k, a.x, c.x);
        lemma_mul_is_associative(k, a.y, c.y);
    }

    /// The dot product of a vector with itself is never negative, and zero
    /// for the zero vector alone.
    pub proof fn lemma_dot_self(a: IntVec2)
        ensures
            a.dot(a) >= 0,
            a.dot(a) == 0 <==> a == IntVec2::splat(0),
    {
        lemma_square(a.x);
        lemma_square(a.y);
    }

    /// Between vectors that fit, with a divisor free of zeros, the quotient
    /// fits unless some component divides the least integer by minus one.
    pub proof fn lemma_over_fits(a: IntVec2, b: IntVec2)
        requires
            a.fits(),
            b.fits(),
            b.nonzero(),
        ensures
            a.over(b).fits() <==> {
                &&& !(a.x == i64::MIN && b.x == -1)
                &&& !(a.y == i64::MIN && b.y == -1)
            },
    {
        lemma_trunc_div_fits(a.x, b.x);
        lemma_trunc_div_fits(a.y, b.y);
    }
}

impl Vector2i {
    /// A vector is determined by its view, and a model that fits is the view
    /// of the vector made of it.
    pub proof fn lemma_view_round_trip(v: Vector2i, m: IntVec2)
        ensures
            Vector2i::of(v@) == v,
            m.fits() ==> Vector2i::of(m)@ == m,
    {
    }

    /// `a + b` and `b + a` are defined together and equal.
    pub proof fn lemma_add_commutes(a: Vector2i, b: Vector2i)
        ensures
            a.add_req(b) == b.add_req(a),
            a.add_spec(b) == b.add_spec(a),
    {
    }

    /// `k * v` and `v * k` are defined together and equal.
    pub proof fn lemma_scalar_product_commutes(k: i64, v: Vector2i)
        ensures
            k.mul_req(v) == v.mul_req(k),
            k.mul_spec(v) == v.mul_spec(k),
    {
    }

    /// Where `(a + b) * k`, `a * k` and `b * k` can all be computed, so can
    /// `a * k + b * k`, and it equals `(a + b) * k`.
    pub proof fn lemma_scalar_product_distributes(a: Vector2i, b: Vector2i, k: i64)
        requires
            a.add_req(b),
            a.add_spec(b).mul_req(k),
            a.mul_req(k),
            b.mul_req(k),
        ensures
            a.mul_spec(k).add_req(b.mul_spec(k)),
            a.add_spec(b).mul_spec(k) == a.mul_spec(k).add_spec(b.mul_spec(k)),
    {
        IntVec2::lemma_scale_distributes(a@, b@, 0, k as int);
    }
}

} // verus!
