//! Exact conversions between integers and IEEE-754 single-precision bit
//! patterns.
//!
//! The library carries float scalars as raw `u32` bit patterns and never
//! does floating-point arithmetic. Where an integer scalar must become a
//! float scalar (or the reverse), only conversions that are exactly
//! representable are performed; a lossy conversion is reported, never
//! rounded.

use vstd::prelude::*;
use vstd::math::abs;
use vstd::arithmetic::div_mod::lemma_fundamental_div_mod;
use vstd::arithmetic::div_mod::lemma_fundamental_div_mod_converse;
use vstd::arithmetic::div_mod::lemma_mod_multiples_basic;
use vstd::arithmetic::mul::lemma_mul_equality_converse;
use vstd::arithmetic::mul::lemma_mul_inequality;
use vstd::arithmetic::mul::lemma_mul_strict_inequality;
use vstd::arithmetic::mul::lemma_mul_is_associative;
use vstd::arithmetic::mul::lemma_mul_is_commutative;
use vstd::arithmetic::mul::lemma_mul_is_distributive_add_other_way;
use vstd::arithmetic::power2::pow2;
use vstd::arithmetic::power2::lemma_pow2_adds;
use vstd::arithmetic::power2::lemma_pow2_pos;
use vstd::arithmetic::power2::lemma_pow2_strictly_increases;
use vstd::arithmetic::power2::lemma2_to64;
use vstd::arithmetic::power2::lemma2_to64_rest;

verus! {

/// Bit pattern of the `f32` value `1.0`.
pub const F32_ONE_BITS: u32 = 0x3F80_0000;

/// Bit pattern of `f32::MAX`.
pub const F32_MAX_BITS: u32 = 0x7F7F_FFFF;

/// The sign field: bit 31.
pub open spec fn f32_sign(bits: u32) -> int {
    bits as int / 0x8000_0000
}

/// The biased exponent field: bits 23..31.
pub open spec fn f32_exp(bits: u32) -> int {
    (bits as int / 0x80_0000) % 0x100
}

/// The fraction field: bits 0..23.
pub open spec fn f32_frac(bits: u32) -> int {
    bits as int % 0x80_0000
}

/// The full mantissa of a normal number: the fraction with its implicit
/// leading bit.
pub open spec fn f32_mantissa(bits: u32) -> int {
    f32_frac(bits) + 0x80_0000
}

/// `bits` is the exact single-precision encoding of the integer `v`.
///
/// Zero is encoded as `+0.0`; any other integer as a normal number whose
/// value `mantissa * 2^(exp - 150)` equals `v`, which the equation states
/// scaled by `2^150` to stay in integers.
pub open spec fn f32_bits_represent_int(bits: u32, v: int) -> bool {
    if v == 0 {
        bits == 0
    } else {
        &&& (v > 0 <==> f32_sign(bits) == 0)
        &&& 1 <= f32_exp(bits) <= 254
        &&& abs(v) * pow2(150) == f32_mantissa(bits) * pow2(f32_exp(bits) as nat)
    }
}

/// A mantissa times a power of two: the shape of every exactly
/// representable magnitude.
pub open spec fn mantissa_shifted(m: int, e: nat) -> int {
    m * pow2(e)
}

/// `v` has an exact single-precision representation: its magnitude is a
/// mantissa of fewer than 25 bits times a power of two.
pub open spec fn fits_f32_int(v: int) -> bool {
    exists|m: int, e: nat| 0 <= m < pow2(24) && abs(v) == #[trigger] mantissa_shifted(m, e)
}

/// `2^e`, as a machine word.
pub fn pow2_u64(e: u64) -> (r: u64)
    requires
        e < 64,
    ensures
        r == pow2(e as nat),
{
    proof {
        lemma2_to64();
    }
    let mut r: u64 = 1;
    let mut k: u64 = 0;
    while k < e
        invariant
            k <= e,
            e < 64,
            r == pow2(k as nat),
        decreases e - k,
    {
        proof {
            lemma_pow2_adds(k as nat, 1);
            lemma2_to64();
            if (k as nat) < 63 {
                lemma_pow2_strictly_increases(k as nat, 63);
            }
            lemma2_to64_rest();
        }
        r = r * 2;
        k = k + 1;
    }
    r
}

/// The exact nonnegative integer a single-precision bit pattern encodes,
/// if it encodes one that fits a `u32`: the constructive mirror of
/// [`f32_bits_represent_int`] for this direction.
pub open spec fn f32_bits_as_exact_u32(bits: u32) -> Option<int> {
    if bits == 0 {
        Some(0int)
    } else if f32_sign(bits) != 0 {
        None
    } else if f32_exp(bits) < 1 || f32_exp(bits) > 254 {
        None
    } else if f32_exp(bits) >= 150 {
        if f32_exp(bits) > 158 {
            None
        } else {
            Some(f32_mantissa(bits) * pow2((f32_exp(bits) - 150) as nat))
        }
    } else {
        if f32_mantissa(bits) % (pow2((150 - f32_exp(bits)) as nat) as int) == 0 {
            Some(f32_mantissa(bits) / (pow2((150 - f32_exp(bits)) as nat) as int))
        } else {
            None
        }
    }
}

/// An odd mantissa of 25 or more bits, times any power of two, is never a
/// mantissa of fewer than 25 bits times a power of two: the odd factor is
/// pinned.
proof fn lemma_odd_wide_not_representable(m: int, s: nat, m2: int, e: nat)
    requires
        m % 2 == 1,
        m >= pow2(24),
        0 <= m2 < pow2(24),
    ensures
        m * pow2(s) != m2 * pow2(e),
{
    if m * pow2(s) == m2 * pow2(e) {
        if e <= s {
            lemma_pow2_adds((s - e) as nat, e);
            lemma_pow2_pos(e);
            lemma_pow2_pos((s - e) as nat);
            // m * 2^(s-e) * 2^e == m2 * 2^e, so m2 == m * 2^(s-e) >= m.
            lemma_mul_is_associative(m, pow2((s - e) as nat) as int, pow2(e) as int);
            lemma_mul_is_commutative(m * pow2((s - e) as nat), pow2(e) as int);
            lemma_mul_is_commutative(m2, pow2(e) as int);
            lemma_mul_equality_converse(pow2(e) as int, m * pow2((s - e) as nat), m2);
            lemma_mul_inequality(1, pow2((s - e) as nat) as int, m);
            lemma_mul_is_commutative(m, pow2((s - e) as nat) as int);
            assert(m2 >= 1 * m);
        } else {
            lemma_pow2_adds((e - s) as nat, s);
            lemma_pow2_pos(s);
            // m2 * 2^(e-s) * 2^s == m * 2^s, so m == m2 * 2^(e-s), which is even.
            lemma_mul_is_associative(m2, pow2((e - s) as nat) as int, pow2(s) as int);
            lemma_mul_is_commutative(m2 * pow2((e - s) as nat), pow2(s) as int);
            lemma_mul_is_commutative(m, pow2(s) as int);
            lemma_mul_equality_converse(pow2(s) as int, m2 * pow2((e - s) as nat), m);
            lemma_pow2_adds((e - s - 1) as nat, 1);
            lemma2_to64();
            lemma_mul_is_associative(m2, pow2((e - s - 1) as nat) as int, 2);
            lemma_mod_multiples_basic(m2 * pow2((e - s - 1) as nat), 2);
        }
    }
}

/// A bit pattern encodes at most one integer: the representation
/// relation is a partial function of the bits.
pub proof fn lemma_represent_functional(bits: u32, v1: int, v2: int)
    requires
        f32_bits_represent_int(bits, v1),
        f32_bits_represent_int(bits, v2),
    ensures
        v1 == v2,
{
    if v1 == 0 || v2 == 0 {
        // Zero forces the all-zero pattern, whose exponent field fails
        // the normal-number bound any nonzero value needs.
    } else {
        lemma_pow2_pos(150);
        lemma_mul_is_commutative(abs(v1) as int, pow2(150) as int);
        lemma_mul_is_commutative(abs(v2) as int, pow2(150) as int);
        lemma_mul_equality_converse(pow2(150) as int, abs(v1) as int, abs(v2) as int);
    }
}

/// Encodes an integer as single-precision bits, exactly or not at all:
/// the result is `Some` exactly when `v` is exactly representable.
pub fn f32_bits_from_int(v: i64) -> (r: Option<u32>)
    ensures
        match r {
            Some(bits) => f32_bits_represent_int(bits, v as int),
            None => !fits_f32_int(v as int),
        },
        r is Some <==> fits_f32_int(v as int),
{
    proof {
        lemma2_to64();
        lemma2_to64_rest();
    }
    if v == 0 {
        assert(fits_f32_int(0)) by {
            assert(abs(0) == mantissa_shifted(0, 0));
        }
        return Some(0);
    }
    let sign: u32 = if v < 0 {
        1
    } else {
        0
    };
    let mut m: u64 = if v < 0 {
        (-(v as i128)) as u64
    } else {
        v as u64
    };
    let ghost va = abs(v as int);
    let mut exp: u64 = 150;
    assert(m == va && 1 <= va < pow2(64));
    if m < 0x80_0000 {
        // Normalize a small magnitude up into [2^23, 2^24).
        while m < 0x80_0000
            invariant
                1 <= m < 0x100_0000,
                127 <= exp <= 150,
                va * pow2(150) == m * pow2(exp as nat),
                m >= pow2((150 - exp) as nat),
            decreases exp,
        {
            proof {
                lemma2_to64();
                // The next exponent stays in range: m dominates 2^(150-exp),
                // and m is still under 2^23.
                if exp < 128 {
                    if (150 - exp) as nat > 23 {
                        lemma_pow2_strictly_increases(23, (150 - exp) as nat);
                    }
                    assert(false);
                }
                lemma_pow2_adds((exp - 1) as nat, 1);
                lemma_mul_is_associative(m as int, 2, pow2((exp - 1) as nat) as int);
                lemma_mul_is_commutative(m as int, 2);
                lemma_pow2_adds((150 - exp) as nat, 1);
            }
            m = m * 2;
            exp = exp - 1;
        }
    } else {
        // Normalize a wide magnitude down, refusing to drop set bits.
        while m >= 0x100_0000
            invariant
                m >= 0x80_0000,
                150 <= exp <= 190,
                va * pow2(150) == m * pow2(exp as nat),
                va == abs(v as int),
                1 <= va < pow2(64),
            decreases m,
        {
            proof {
                // The exponent stays under 190: the product is below 2^214
                // while the mantissa keeps 24 bits.
                lemma_pow2_adds(64, 150);
                lemma_pow2_adds(24, exp as nat);
                lemma2_to64();
                lemma_pow2_pos(150);
                lemma_pow2_pos(exp as nat);
                lemma_mul_strict_inequality(va as int, pow2(64) as int, pow2(150) as int);
                lemma_mul_inequality(pow2(24) as int, m as int, pow2(exp as nat) as int);
                if 24 + exp >= 214 {
                    if 24 + exp > 214 {
                        lemma_pow2_strictly_increases(214, (24 + exp) as nat);
                    }
                    assert(false);
                }
            }
            if m % 2 == 1 {
                // The odd part is at least 2^24 wide: no exact encoding
                // exists.
                proof {
                    lemma_pow2_adds((exp - 150) as nat, 150);
                    lemma_pow2_pos(150);
                    lemma_pow2_pos((exp - 150) as nat);
                    lemma_mul_is_associative(
                        m as int,
                        pow2((exp - 150) as nat) as int,
                        pow2(150) as int,
                    );
                    lemma_mul_is_commutative(m * pow2((exp - 150) as nat), pow2(150) as int);
                    lemma_mul_is_commutative(va as int, pow2(150) as int);
                    lemma_mul_equality_converse(
                        pow2(150) as int,
                        va as int,
                        m * pow2((exp - 150) as nat),
                    );
                    assert forall|m2: int, e: nat| 0 <= m2 < pow2(24) implies va
                        != #[trigger] mantissa_shifted(m2, e) by {
                        lemma_odd_wide_not_representable(m as int, (exp - 150) as nat, m2, e);
                    }
                    assert(!fits_f32_int(v as int));
                }
                return None;
            }
            proof {
                lemma_fundamental_div_mod(m as int, 2);
                lemma_pow2_adds(exp as nat, 1);
                lemma2_to64();
                lemma_mul_is_associative((m / 2) as int, 2, pow2(exp as nat) as int);
                lemma_mul_is_commutative((m / 2) as int, 2);
            }
            m = m / 2;
            exp = exp + 1;
        }
    }
    let frac: u32 = (m - 0x80_0000) as u32;
    let bits: u32 = sign * 0x8000_0000 + (exp as u32) * 0x80_0000 + frac;
    proof {
        let s = sign as int;
        let x = bits as int;
        // Field extraction: the three packed fields come back out.
        lemma_mul_is_distributive_add_other_way(0x80_0000, s * 0x100, exp as int);
        lemma_mul_is_associative(s, 0x100, 0x80_0000);
        assert(x == (s * 0x100 + exp) * 0x80_0000 + frac);
        lemma_fundamental_div_mod_converse(x, 0x80_0000, s * 0x100 + exp as int, frac as int);
        lemma_fundamental_div_mod_converse(s * 0x100 + exp as int, 0x100, s, exp as int);
        assert(x == s * 0x8000_0000 + ((exp as u32) * 0x80_0000 + frac));
        lemma_fundamental_div_mod_converse(
            x,
            0x8000_0000,
            s,
            (exp as u32) * 0x80_0000 + frac as int,
        );
        assert(f32_sign(bits) == s);
        assert(f32_exp(bits) == exp);
        assert(f32_frac(bits) == frac);
        assert(f32_mantissa(bits) == m);
        // Exactness: the final mantissa and exponent witness it.
        lemma2_to64();
        if exp >= 150 {
            lemma_pow2_adds((exp - 150) as nat, 150);
            lemma_pow2_pos(150);
            lemma_mul_is_associative(m as int, pow2((exp - 150) as nat) as int, pow2(150) as int);
            lemma_mul_is_commutative(m * pow2((exp - 150) as nat), pow2(150) as int);
            lemma_mul_is_commutative(va as int, pow2(150) as int);
            lemma_mul_equality_converse(
                pow2(150) as int,
                va as int,
                m * pow2((exp - 150) as nat),
            );
            assert(va == mantissa_shifted(m as int, (exp - 150) as nat));
            assert(fits_f32_int(v as int));
        } else {
            // The magnitude is itself under 2^24: it is its own mantissa.
            lemma_pow2_strictly_increases(exp as nat, 150);
            lemma_mul_inequality(pow2(exp as nat) as int, pow2(150) as int, m as int);
            lemma_mul_is_commutative(m as int, pow2(exp as nat) as int);
            lemma_mul_is_commutative(m as int, pow2(150) as int);
            if va > m {
                lemma_mul_strict_inequality(m as int, va as int, pow2(150) as int);
                lemma_mul_is_commutative(va as int, pow2(150) as int);
                assert(false);
            }
            assert(va == mantissa_shifted(va as int, 0));
            assert(fits_f32_int(v as int));
        }
    }
    Some(bits)
}

/// From the representation equation with a small exponent field, the
/// magnitude scaled up by the remaining shift equals the mantissa.
proof fn lemma_decode_value_low(bits: u32, v: int)
    requires
        v != 0,
        f32_bits_represent_int(bits, v),
        f32_exp(bits) < 150,
    ensures
        abs(v) * pow2((150 - f32_exp(bits)) as nat) == f32_mantissa(bits),
{
    let e = f32_exp(bits);
    let sh = (150 - e) as nat;
    lemma_pow2_adds(sh, e as nat);
    lemma_pow2_pos(e as nat);
    lemma_mul_is_associative(abs(v) as int, pow2(sh) as int, pow2(e as nat) as int);
    lemma_mul_is_commutative((abs(v) * pow2(sh)) as int, pow2(e as nat) as int);
    lemma_mul_is_commutative(f32_mantissa(bits), pow2(e as nat) as int);
    lemma_mul_equality_converse(
        pow2(e as nat) as int,
        (abs(v) * pow2(sh)) as int,
        f32_mantissa(bits),
    );
}

/// From the representation equation with a large exponent field, the
/// magnitude is the mantissa scaled up by the remaining shift.
proof fn lemma_decode_value_high(bits: u32, v: int)
    requires
        v != 0,
        f32_bits_represent_int(bits, v),
        f32_exp(bits) >= 150,
    ensures
        abs(v) == f32_mantissa(bits) * pow2((f32_exp(bits) - 150) as nat),
{
    let e = f32_exp(bits);
    let sh = (e - 150) as nat;
    lemma_pow2_adds(sh, 150);
    lemma_pow2_pos(150);
    lemma_mul_is_associative(f32_mantissa(bits), pow2(sh) as int, pow2(150) as int);
    lemma_mul_is_commutative(f32_mantissa(bits) * pow2(sh), pow2(150) as int);
    lemma_mul_is_commutative(abs(v) as int, pow2(150) as int);
    lemma_mul_equality_converse(
        pow2(150) as int,
        abs(v) as int,
        f32_mantissa(bits) * pow2(sh),
    );
}

/// Decodes single-precision bits back to the exact nonnegative integer
/// they encode: `Some` exactly when the bits encode an integer that fits
/// a `u32`, `None` for every other pattern (negative values, fractions,
/// values past `u32::MAX`, infinities and NaNs).
pub fn f32_bits_to_u32_exact(bits: u32) -> (r: Option<u32>)
    ensures
        match r {
            Some(v) => f32_bits_represent_int(bits, v as int) && f32_bits_as_exact_u32(bits)
                == Some(v as int),
            None => forall|v: int|
                0 <= v <= u32::MAX ==> !f32_bits_represent_int(bits, v),
        },
        r is Some <==> f32_bits_as_exact_u32(bits) is Some,
{
    proof {
        lemma2_to64();
        lemma2_to64_rest();
    }
    if bits == 0 {
        return Some(0);
    }
    let sign: u32 = bits / 0x8000_0000;
    let exp: u32 = (bits / 0x80_0000) % 0x100;
    let frac: u32 = bits % 0x80_0000;
    if sign == 1 || exp == 0 || exp == 255 {
        return None;
    }
    let m: u64 = frac as u64 + 0x80_0000;
    assert(m == f32_mantissa(bits));
    if exp >= 150 {
        let sh: u32 = exp - 150;
        if sh > 8 {
            // The encoded integer is at least 2^32.
            proof {
                assert forall|v: int| 0 <= v <= u32::MAX implies !f32_bits_represent_int(
                    bits,
                    v,
                ) by {
                    if v != 0 && f32_bits_represent_int(bits, v) {
                        lemma_decode_value_high(bits, v);
                        lemma_pow2_adds(23, (sh) as nat);
                        lemma_mul_inequality(
                            pow2(23) as int,
                            f32_mantissa(bits),
                            pow2(sh as nat) as int,
                        );
                        lemma_pow2_strictly_increases(32, (23 + sh) as nat);
                        assert(false);
                    }
                }
            }
            return None;
        }
        let p: u64 = pow2_u64(sh as u64);
        proof {
            if (sh as nat) < 8 {
                lemma_pow2_strictly_increases(sh as nat, 8);
            }
            lemma_mul_inequality(p as int, 256, m as int);
            lemma_mul_strict_inequality(m as int, pow2(24) as int, 256);
            lemma_pow2_adds(24, 8);
            lemma_mul_is_commutative(m as int, p as int);
            lemma_mul_is_commutative(m as int, 256);
        }
        let v: u64 = m * p;
        proof {
            lemma_pow2_adds(sh as nat, 150);
            lemma_mul_is_associative(m as int, pow2(sh as nat) as int, pow2(150) as int);
            lemma_mul_is_commutative(m * pow2(sh as nat), pow2(150) as int);
            assert((v as int) * pow2(150) == f32_mantissa(bits) * pow2(exp as nat));
            lemma_pow2_pos(sh as nat);
            lemma_mul_inequality(1, pow2(sh as nat) as int, m as int);
            lemma_mul_is_commutative(m as int, pow2(sh as nat) as int);
            assert(v >= 1 * m);
        }
        Some(v as u32)
    } else {
        let sh: u32 = 150 - exp;
        if sh >= 24 {
            // The value has a fractional part: the mantissa is too narrow
            // for the shift.
            proof {
                assert forall|v: int| 0 <= v <= u32::MAX implies !f32_bits_represent_int(
                    bits,
                    v,
                ) by {
                    if v != 0 && f32_bits_represent_int(bits, v) {
                        lemma_decode_value_low(bits, v);
                        lemma_pow2_pos(sh as nat);
                        if abs(v) == 0 {
                            assert(false);
                        } else {
                            lemma_mul_inequality(1, abs(v) as int, pow2(sh as nat) as int);
                            if (sh as nat) > 24 {
                                lemma_pow2_strictly_increases(24, sh as nat);
                            }
                            assert(false);
                        }
                    }
                }
                if (sh as nat) > 24 {
                    lemma_pow2_strictly_increases(24, sh as nat);
                }
                vstd::arithmetic::div_mod::lemma_small_mod(m as nat, pow2(sh as nat));
            }
            return None;
        }
        let p: u64 = pow2_u64(sh as u64);
        proof {
            lemma_pow2_pos(sh as nat);
        }
        if m % p != 0 {
            // Some set bit sits below the binary point: not an integer.
            proof {
                assert forall|v: int| 0 <= v <= u32::MAX implies !f32_bits_represent_int(
                    bits,
                    v,
                ) by {
                    if v != 0 && f32_bits_represent_int(bits, v) {
                        lemma_decode_value_low(bits, v);
                        lemma_mod_multiples_basic(abs(v) as int, pow2(sh as nat) as int);
                        assert(false);
                    }
                }
            }
            return None;
        }
        let v: u64 = m / p;
        proof {
            lemma_fundamental_div_mod(m as int, p as int);
            lemma_mul_is_commutative(p as int, (m / p) as int);
            assert(m == (v as int) * (p as int) + 0);
            lemma_pow2_adds(sh as nat, exp as nat);
            lemma_mul_is_associative(v as int, pow2(sh as nat) as int, pow2(exp as nat) as int);
            assert((v as int) * pow2(150) == f32_mantissa(bits) * pow2(exp as nat));
            if v == 0 {
                assert(m == 0);
                assert(false);
            }
        }
        Some(v as u32)
    }
}

} // verus!
