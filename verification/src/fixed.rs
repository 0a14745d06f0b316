//! Fixed-point arithmetic in micro-units.
//!
//! A quantity `q` stands for the real number `q / SCALE`. The product of two
//! fixed-point quantities therefore has to be rescaled by `SCALE`; [`fp_mul`]
//! does that with the intermediate product held in 128 bits, rounding toward
//! zero, and [`fp`] is the specification of what it returns.

use vstd::arithmetic::div_mod::{
    lemma_div_basics, lemma_div_is_ordered, lemma_div_is_ordered_by_denominator,
    lemma_div_multiples_vanish,
};
use vstd::prelude::*;

verus! {

/// Number of fixed-point steps in one unit: one world unit, one radian,
/// one second.
pub const SCALE: i64 = 1_000_000;

/// Largest magnitude that the intermediate product of [`fp_mul`] may take:
/// exactly the products whose rescaled value still fits in an `i64`.
pub open spec fn fp_prod_limit() -> int {
    (0x7fff_ffff_ffff_ffff as int) * (1_000_000 as int)
}

/// Rescaled product of two fixed-point quantities, rounded toward zero.
pub open spec fn fp(a: int, b: int) -> int {
    let p = a * b;
    if p >= 0 {
        p / (SCALE as int)
    } else {
        -((-p) / (SCALE as int))
    }
}

/// The product of values bounded in magnitude is bounded by the product of
/// the bounds.
pub proof fn lemma_mul_bound(a: int, b: int, am: int, bm: int)
    by (nonlinear_arith)
    requires
        -am <= a <= am,
        -bm <= b <= bm,
        0 <= am,
        0 <= bm,
    ensures
        -(am * bm) <= a * b <= am * bm,
{
}

/// A bound on the raw product gives the rescaled bound on [`fp`].
pub proof fn lemma_fp_bound(a: int, b: int, m: int)
    requires
        -(m * (SCALE as int)) <= a * b <= m * (SCALE as int),
        0 <= m,
    ensures
        -m <= fp(a, b) <= m,
{
    let s = SCALE as int;
    let p = a * b;
    lemma_div_multiples_vanish(m, s);
    assert(s * m == m * s);
    if p >= 0 {
        lemma_div_is_ordered(p, m * s, s);
        lemma_div_is_ordered(0, p, s);
        lemma_div_basics(s);
    } else {
        lemma_div_is_ordered(-p, m * s, s);
        lemma_div_is_ordered(0, -p, s);
        lemma_div_basics(s);
    }
}

/// Anything multiplied by zero rescales to zero.
pub proof fn lemma_fp_zero(a: int)
    ensures
        fp(a, 0) == 0,
        fp(0, a) == 0,
{
    lemma_div_basics(SCALE as int);
}

/// `SCALE` is the fixed-point unit: multiplying by it is the identity.
pub proof fn lemma_fp_unit(a: int)
    ensures
        fp(SCALE as int, a) == a,
        fp(a, SCALE as int) == a,
{
    let s = SCALE as int;
    lemma_div_multiples_vanish(a, s);
    lemma_div_multiples_vanish(-a, s);
    assert(s * a == a * s);
    assert(s * (-a) == -(a * s));
}

/// Fixed-point quotient of two fixed-point quantities: `a * SCALE / b`,
/// rounded toward zero.
pub open spec fn fq(a: int, b: int) -> int {
    let na = if a >= 0 { a } else { -a };
    let nb = if b >= 0 { b } else { -b };
    let q = (na * (SCALE as int)) / nb;
    if (a >= 0) == (b >= 0) {
        q
    } else {
        -q
    }
}

/// A bound on the numerator bounds [`fq`]: dividing never grows the
/// magnitude beyond the rescaled numerator.
pub proof fn lemma_fq_bound(a: int, b: int, m: int)
    requires
        -m <= a <= m,
        0 <= m,
        b != 0,
    ensures
        -(m * (SCALE as int)) <= fq(a, b) <= m * (SCALE as int),
{
    let s = SCALE as int;
    let na = if a >= 0 { a } else { -a };
    let nb = if b >= 0 { b } else { -b };
    lemma_div_is_ordered_by_denominator(na * s, 1, nb);
    lemma_div_basics(nb);
    lemma_div_is_ordered(0, na * s, nb);
    assert((na * s) / 1 == na * s);
}

/// Fixed-point division: `a * SCALE / b` with the scaled numerator taken
/// exactly in 128 bits and the quotient rounded toward zero.
pub fn fp_div(a: i64, b: i64) -> (r: i64)
    requires
        b != 0,
        -(0x7fff_ffff_ffff_ffff as int) <= fq(a as int, b as int) <= 0x7fff_ffff_ffff_ffff as int,
    ensures
        r as int == fq(a as int, b as int),
{
    let neg: bool = (a < 0) != (b < 0);
    let am: u64 = if a < 0 {
        (-(a as i128)) as u64
    } else {
        a as u64
    };
    let bm: u64 = if b < 0 {
        (-(b as i128)) as u64
    } else {
        b as u64
    };
    let n: u128 = (am as u128) * 1_000_000;
    let q: u128 = n / (bm as u128);
    proof {
        let fa = fq(a as int, b as int);
        assert(fa == q as int || fa == -(q as int));
    }
    if neg {
        -(q as i64)
    } else {
        q as i64
    }
}

/// Fixed-point multiplication: `a * b / SCALE` with the product taken
/// exactly in 128 bits and the quotient rounded toward zero.
pub fn fp_mul(a: i64, b: i64) -> (r: i64)
    requires
        -fp_prod_limit() <= (a as int) * (b as int) <= fp_prod_limit(),
    ensures
        r as int == fp(a as int, b as int),
{
    let neg: bool = (a < 0) != (b < 0);
    let am: u64 = if a < 0 {
        (-(a as i128)) as u64
    } else {
        a as u64
    };
    let bm: u64 = if b < 0 {
        (-(b as i128)) as u64
    } else {
        b as u64
    };
    proof {
        assert((am as int) * (bm as int) == if (a as int) * (b as int) >= 0 {
            (a as int) * (b as int)
        } else {
            -((a as int) * (b as int))
        }) by (nonlinear_arith)
            requires
                am as int == (if (a as int) < 0 { -(a as int) } else { a as int }),
                bm as int == (if (b as int) < 0 { -(b as int) } else { b as int }),
        ;
        assert(am < 0x1_0000_0000_0000_0000);
        assert(bm < 0x1_0000_0000_0000_0000);
        assert((am as int) * (bm as int) <= fp_prod_limit());
    }
    let p: u128 = (am as u128) * (bm as u128);
    let q: u128 = p / 1_000_000;
    proof {
        let s = SCALE as int;
        lemma_div_is_ordered(p as int, fp_prod_limit(), s);
        lemma_div_multiples_vanish(0x7fff_ffff_ffff_ffff, s);
        assert(s * 0x7fff_ffff_ffff_ffff == fp_prod_limit());
        lemma_div_is_ordered(0, p as int, s);
        lemma_div_basics(s);
    }
    if neg {
        let r: i64 = -(q as i64);
        proof {
            assert((a as int) * (b as int) <= 0) by (nonlinear_arith)
                requires
                    ((a as int) < 0) != ((b as int) < 0),
            ;
        }
        r
    } else {
        let r: i64 = q as i64;
        proof {
            assert((a as int) * (b as int) >= 0) by (nonlinear_arith)
                requires
                    ((a as int) < 0) == ((b as int) < 0),
            ;
        }
        r
    }
}

} // verus!
