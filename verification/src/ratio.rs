//! Aspect ratios as reduced fractions.
//!
//! The projection descriptor keeps the canvas aspect ratio as an
//! exact fraction in lowest terms, so that two canvases of the same
//! proportions yield equal projection descriptors no matter their
//! pixel sizes.

use vstd::prelude::*;

verus! {

/// Greatest common divisor by Euclid's recursion.
pub open spec fn gcd(a: nat, b: nat) -> nat
    decreases b,
{
    if b == 0 {
        a
    } else {
        gcd(b, a % b)
    }
}

/// The gcd of two numbers, the second positive, is positive.
pub proof fn lemma_gcd_pos(a: nat, b: nat)
    requires
        b > 0,
    ensures
        gcd(a, b) > 0,
    decreases b,
{
    if a % b == 0 {
        assert(gcd(a, b) == gcd(b, 0));
    } else {
        lemma_gcd_pos(b, a % b);
    }
}

/// The gcd divides both of its arguments.
pub proof fn lemma_gcd_divides(a: nat, b: nat)
    requires
        b > 0,
    ensures
        a % gcd(a, b) == 0,
        b % gcd(a, b) == 0,
    decreases b,
{
    let g = gcd(a, b);
    lemma_gcd_pos(a, b);
    assert(g == gcd(b, a % b));
    if a % b == 0 {
        assert(gcd(b, 0) == b);
        vstd::arithmetic::div_mod::lemma_mod_self_0(b as int);
    } else {
        lemma_gcd_divides(b, a % b);
        assert(b % g == 0);
        assert((a % b) % g == 0);
        vstd::arithmetic::div_mod::lemma_fundamental_div_mod(a as int, b as int);
        assert(a == b * (a as int / b as int) + a % b);
        assert((b * (a as int / b as int)) % (g as int) == 0) by {
            vstd::arithmetic::div_mod::lemma_mul_mod_noop_left(
                b as int,
                a as int / b as int,
                g as int,
            );
            assert(((b as int) % (g as int)) * (a as int / b as int) == 0) by {
                vstd::arithmetic::mul::lemma_mul_basics(a as int / b as int);
            }
            vstd::arithmetic::div_mod::lemma_small_mod(0, g);
        }
        assert(a % g == 0) by {
            vstd::arithmetic::div_mod::lemma_add_mod_noop(
                b * (a as int / b as int),
                (a % b) as int,
                g as int,
            );
        }
    }
}

/// The gcd of two numbers, the second positive, is at most the second.
pub proof fn lemma_gcd_le(a: nat, b: nat)
    requires
        b > 0,
    ensures
        gcd(a, b) <= b,
{
    lemma_gcd_pos(a, b);
    lemma_gcd_divides(a, b);
    if gcd(a, b) > b {
        vstd::arithmetic::div_mod::lemma_small_mod(b, gcd(a, b));
    }
}

/// Scaling both arguments scales the gcd: `gcd(k*a, k*b) == k * gcd(a, b)`.
pub proof fn lemma_gcd_scale(k: nat, a: nat, b: nat)
    requires
        k > 0,
    ensures
        gcd(k * a, k * b) == k * gcd(a, b),
    decreases b,
{
    if b == 0 {
        assert(k * b == 0);
    } else {
        assert((k * a) % (k * b) == k * (a % b)) by {
            vstd::arithmetic::div_mod::lemma_truncate_middle(a as int, k as int, b as int);
            vstd::arithmetic::mul::lemma_mul_is_commutative(k as int, a as int);
        }
        assert(k * b > 0) by {
            vstd::arithmetic::mul::lemma_mul_strictly_positive(k as int, b as int);
        }
        lemma_gcd_scale(k, b, a % b);
        assert(gcd(k * a, k * b) == gcd(k * b, (k * a) % (k * b)));
    }
}

/// A fraction, kept in lowest terms by `reduce`.
#[derive(Clone, Copy, Debug, PartialEq, Eq, Structural)]
pub struct Ratio {
    pub num: u32,
    pub den: u32,
}

/// The fraction `w / h` in lowest terms.
pub open spec fn reduce_spec(w: u32, h: u32) -> Ratio {
    Ratio {
        num: ((w as nat) / gcd(w as nat, h as nat)) as u32,
        den: ((h as nat) / gcd(w as nat, h as nat)) as u32,
    }
}

/// Greatest common divisor of `a` and `b`.
pub fn gcd_u32(a: u32, b: u32) -> (r: u32)
    ensures
        r == gcd(a as nat, b as nat),
{
    let mut x: u32 = a;
    let mut y: u32 = b;
    while y != 0
        invariant
            gcd(x as nat, y as nat) == gcd(a as nat, b as nat),
        decreases y,
    {
        let t: u32 = x % y;
        x = y;
        y = t;
    }
    x
}

/// Reduces the fraction `w / h` to lowest terms.
pub fn reduce(w: u32, h: u32) -> (r: Ratio)
    requires
        h > 0,
    ensures
        r == reduce_spec(w, h),
        r.den > 0,
{
    proof {
        lemma_gcd_pos(w as nat, h as nat);
        lemma_gcd_divides(w as nat, h as nat);
        let g = gcd(w as nat, h as nat);
        assert((h as nat) / g >= 1) by {
            lemma_gcd_le(w as nat, h as nat);
            vstd::arithmetic::div_mod::lemma_div_non_zero(h as int, g as int);
        }
        assert((w as nat) / g <= w as nat) by {
            vstd::arithmetic::div_mod::lemma_div_is_ordered_by_denominator(
                w as int,
                1,
                g as int,
            );
            vstd::arithmetic::div_mod::lemma_div_by_self(1);
        }
        assert((h as nat) / g <= h as nat) by {
            vstd::arithmetic::div_mod::lemma_div_is_ordered_by_denominator(
                h as int,
                1,
                g as int,
            );
            vstd::arithmetic::div_mod::lemma_div_by_self(1);
        }
    }
    let g = gcd_u32(w, h);
    Ratio { num: w / g, den: h / g }
}

/// The reduced fraction stands for exactly `w / h`:
/// cross-multiplication recovers the proportions of the inputs.
pub proof fn lemma_reduce_exact(w: u32, h: u32)
    requires
        h > 0,
    ensures
        reduce_spec(w, h).num * (h as int) == (w as int) * reduce_spec(w, h).den,
        reduce_spec(w, h).den > 0,
{
    let g = gcd(w as nat, h as nat) as int;
    lemma_gcd_pos(w as nat, h as nat);
    lemma_gcd_divides(w as nat, h as nat);
    let wq = (w as int) / g;
    let hq = (h as int) / g;
    vstd::arithmetic::div_mod::lemma_fundamental_div_mod(w as int, g);
    vstd::arithmetic::div_mod::lemma_fundamental_div_mod(h as int, g);
    assert(w as int == g * wq);
    assert(h as int == g * hq);
    assert(hq >= 1) by {
        lemma_gcd_le(w as nat, h as nat);
        vstd::arithmetic::div_mod::lemma_div_non_zero(h as int, g);
    }
    assert(wq * (g * hq) == (g * wq) * hq) by {
        vstd::arithmetic::mul::lemma_mul_is_associative(wq, g, hq);
        vstd::arithmetic::mul::lemma_mul_is_commutative(wq, g);
        vstd::arithmetic::mul::lemma_mul_is_associative(g, wq, hq);
    }
}

/// Scaling width and height together does not change the reduced
/// fraction: `reduce(k*w, k*h) == reduce(w, h)`.
pub proof fn lemma_reduce_scale_invariant(w: u32, h: u32, k: u32)
    requires
        h > 0,
        k > 0,
        k * w <= u32::MAX,
        k * h <= u32::MAX,
    ensures
        reduce_spec((k * w) as u32, (k * h) as u32) == reduce_spec(w, h),
{
    let g = gcd(w as nat, h as nat);
    lemma_gcd_pos(w as nat, h as nat);
    lemma_gcd_scale(k as nat, w as nat, h as nat);
    assert(gcd((k * w) as nat, (k * h) as nat) == (k as nat) * g);
    assert(((k * w) as int) / ((k as int) * (g as int)) == (w as int) / (g as int)) by {
        vstd::arithmetic::div_mod::lemma_div_multiples_vanish_quotient(
            k as int,
            w as int,
            g as int,
        );
    }
    assert(((k * h) as int) / ((k as int) * (g as int)) == (h as int) / (g as int)) by {
        vstd::arithmetic::div_mod::lemma_div_multiples_vanish_quotient(
            k as int,
            h as int,
            g as int,
        );
    }
}

} // verus!
