//! Exact rational arithmetic for the texture-coordinate wraparound rule.
//!
//! The render path evaluates these rules on `f32`; here they are stated
//! and proved on exact rationals, where the arithmetic itself introduces
//! no error.

use vstd::prelude::*;
use vstd::arithmetic::div_mod::lemma_fundamental_div_mod;
use vstd::arithmetic::div_mod::lemma_mod_bound;

verus! {

/// A rational number `num / den` with a positive denominator.
#[derive(Clone, Copy, PartialEq, Eq, Debug)]
pub struct Rat {
    pub num: i128,
    pub den: i128,
}

/// The denominator is positive.
pub open spec fn rat_wf(r: Rat) -> bool {
    r.den > 0
}

/// Two rationals denote the same number.
pub open spec fn rat_eq(a: Rat, b: Rat) -> bool {
    a.num * b.den == b.num * a.den
}

impl Rat {
    pub fn new(num: i128, den: i128) -> (r: Rat)
        requires
            den > 0,
        ensures
            r == (Rat { num, den }),
            rat_wf(r),
    {
        Rat { num, den }
    }
}

/// The wraparound rule on a coordinate `n / d`: a value over one keeps
/// only its fractional part, a negative value becomes one minus its
/// magnitude's fractional part, anything in `[0, 1]` is untouched. The
/// result is the new numerator over the same denominator.
pub open spec fn wrap_spec(n: int, d: int) -> int {
    if n > d {
        n % d
    } else if n < 0 {
        d - ((-n) % d)
    } else {
        n
    }
}

/// Applies the wraparound rule to a texture coordinate.
pub fn wrap_uv(u: Rat) -> (r: Rat)
    requires
        rat_wf(u),
        u.num > i128::MIN,
    ensures
        rat_wf(r),
        r.den == u.den,
        r.num == wrap_spec(u.num as int, u.den as int),
        0 <= r.num <= r.den,
{
    proof {
        lemma_wrap_range(u.num as int, u.den as int);
    }
    if u.num > u.den {
        Rat { num: u.num % u.den, den: u.den }
    } else if u.num < 0 {
        Rat { num: u.den - ((-u.num) % u.den), den: u.den }
    } else {
        u
    }
}

/// The wrapped coordinate lies in `[0, 1]`, and it equals one exactly
/// for a coordinate that is one or a nonpositive whole number.
pub proof fn lemma_wrap_range(n: int, d: int)
    requires
        d > 0,
    ensures
        0 <= wrap_spec(n, d) <= d,
        wrap_spec(n, d) == d <==> (n == d || (n < 0 && n % d == 0)),
{
    if n > d {
        lemma_mod_bound(n, d);
    } else if n < 0 {
        lemma_mod_bound(-n, d);
        // -n and n have the same divisibility by d.
        lemma_fundamental_div_mod(-n, d);
        lemma_fundamental_div_mod(n, d);
        lemma_mod_bound(n, d);
        if (-n) % d == 0 {
            vstd::arithmetic::mul::lemma_mul_unary_negation(d, (-n) / d);
            assert(n == d * -((-n) / d));
            vstd::arithmetic::div_mod::lemma_mod_multiples_basic(-((-n) / d), d);
        } else {
            if n % d == 0 {
                vstd::arithmetic::mul::lemma_mul_unary_negation(d, n / d);
                assert(-n == d * -(n / d));
                vstd::arithmetic::div_mod::lemma_mod_multiples_basic(-(n / d), d);
            }
        }
    }
}

/// Wrapping twice is wrapping once: the rule is idempotent, on every
/// coordinate.
pub proof fn lemma_wrap_idempotent(n: int, d: int)
    requires
        d > 0,
    ensures
        wrap_spec(wrap_spec(n, d), d) == wrap_spec(n, d),
{
    lemma_wrap_range(n, d);
}

} // verus!
