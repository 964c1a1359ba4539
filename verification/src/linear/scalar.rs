//! Facts about single components: the range of a machine integer and the
//! quotient that integer division produces.

use vstd::prelude::*;

verus! {

/// Whether `v` can be held by an `i64`.
pub open spec fn in_i64(v: int) -> bool {
    i64::MIN <= v <= i64::MAX
}

/// The quotient of `a` by `b` rounded toward zero, which is what `/` computes
/// on machine integers. Only meaningful for `b != 0`.
pub open spec fn trunc_div(a: int, b: int) -> int {
    if a >= 0 {
        a / b
    } else {
        -((-a) / b)
    }
}

/// What is left of `a` once `b` has been taken out of it `trunc_div(a, b)` times.
pub open spec fn trunc_rem(a: int, b: int) -> int {
    a - b * trunc_div(a, b)
}

/// The quotient rounds toward zero: the remainder is smaller in magnitude
/// than the divisor and never has the sign opposite to the dividend's.
pub proof fn lemma_trunc_div_rounds_toward_zero(a: int, b: int)
    requires
        b != 0,
    ensures
        a == b * trunc_div(a, b) + trunc_rem(a, b),
        a >= 0 ==> 0 <= trunc_rem(a, b),
        a <= 0 ==> trunc_rem(a, b) <= 0,
        b > 0 ==> -b < trunc_rem(a, b) < b,
        b < 0 ==> b < trunc_rem(a, b) < -b,
{
    if a >= 0 {
        lemma_euclid(a, b);
        if a == 0 {
            assert(0int / b == 0) by (nonlinear_arith)
                requires
                    b != 0,
            ;
        }
    } else {
        lemma_euclid(-a, b);
        let q = (-a) / b;
        assert(b * (-q) == -(b * q)) by (nonlinear_arith);
    }
}

/// Negating the dividend negates the quotient.
pub proof fn lemma_trunc_div_odd(a: int, b: int)
    requires
        b != 0,
    ensures
        trunc_div(-a, b) == -trunc_div(a, b),
{
    if a == 0 {
        assert(0int / b == 0) by (nonlinear_arith)
            requires
                b != 0,
        ;
    }
}

/// Dividing a multiple of `k` by `k` gives the other factor back.
pub proof fn lemma_trunc_div_of_multiple(a: int, k: int)
    requires
        k != 0,
    ensures
        trunc_div(a * k, k) == a,
{
    if a * k >= 0 {
        lemma_euclid(a * k, k);
        let q = (a * k) / k;
        let r = (a * k) % k;
        assert(q == a) by (nonlinear_arith)
            requires
                k != 0,
                a * k == k * q + r,
                0 <= r,
                k > 0 ==> r < k,
                k < 0 ==> r < -k,
        ;
    } else {
        lemma_euclid(-(a * k), k);
        let q = (-(a * k)) / k;
        let r = (-(a * k)) % k;
        assert(q == -a) by (nonlinear_arith)
            requires
                k != 0,
                -(a * k) == k * q + r,
                0 <= r,
                k > 0 ==> r < k,
                k < 0 ==> r < -k,
        ;
    }
}

/// Dividing by one changes nothing; dividing by minus one negates.
pub proof fn lemma_trunc_div_by_unit(a: int)
    ensures
        trunc_div(a, 1) == a,
        trunc_div(a, -1) == -a,
{
    lemma_trunc_div_of_multiple(a, 1);
    lemma_trunc_div_of_multiple(-a, -1);
}

/// Among machine integers the only quotient that cannot be held is that of
/// the least integer by minus one.
pub proof fn lemma_trunc_div_fits(a: int, b: int)
    requires
        in_i64(a),
        in_i64(b),
        b != 0,
    ensures
        in_i64(trunc_div(a, b)) <==> !(a == i64::MIN && b == -1),
{
    if b == -1 {
        lemma_trunc_div_by_unit(a);
    } else if b == 1 {
        lemma_trunc_div_by_unit(a);
    } else {
        lemma_trunc_div_rounds_toward_zero(a, b);
        let q = trunc_div(a, b);
        let r = trunc_rem(a, b);
        assert(in_i64(q)) by (nonlinear_arith)
            requires
                a == b * q + r,
                a >= 0 ==> 0 <= r,
                a <= 0 ==> r <= 0,
                b > 0 ==> -b < r < b,
                b < 0 ==> b < r < -b,
                b >= 2 || b <= -2,
                i64::MIN <= a <= i64::MAX,
        ;
    }
}

/// A square is never negative, and zero only for zero.
pub proof fn lemma_square(v: int)
    ensures
        v * v >= 0,
        v * v == 0 <==> v == 0,
{
    assert(v * v >= 0 && (v * v == 0 <==> v == 0)) by (nonlinear_arith);
}

/// Euclidean division, which is what `/` and `%` mean on mathematical
/// integers: quotient and remainder rebuild the dividend, and the remainder
/// lies in `0 .. |b|`.
proof fn lemma_euclid(a: int, b: int)
    requires
        b != 0,
    ensures
        a == b * (a / b) + a % b,
        0 <= a % b,
        b > 0 ==> a % b < b,
        b < 0 ==> a % b < -b,
{
    vstd::arithmetic::div_mod::lemma_fundamental_div_mod(a, b);
    if b > 0 {
        vstd::arithmetic::div_mod::lemma_mod_bound(a, b);
    } else {
        assert(0 <= a % b < -b) by (nonlinear_arith)
            requires
                b < 0,
        ;
    }
}

} // verus!
