//! Single-precision numbers as bit patterns: just enough of their
//! arithmetic to tell whether a product of three of them is zero.
//!
//! The magnitude of a finite number is its significand times a power of
//! two, both whole numbers. A product is the exact product of the
//! magnitudes, rounded to the nearest number that has a bit pattern, ties
//! going to the even significand; what lies beyond the largest of them is
//! infinite.

use vstd::prelude::*;
use vstd::arithmetic::div_mod::{lemma_basic_div, lemma_multiply_divide_lt, lemma_small_mod};
use vstd::arithmetic::power2::{
    lemma2_to64, lemma2_to64_rest, lemma_pow2_adds, lemma_pow2_pos,
    lemma_pow2_strictly_increases, lemma_pow2_unfold, pow2,
};

verus! {

/// The eight bits that hold the exponent.
pub open spec fn exponent_field(bits: u32) -> int {
    (bits as int / 0x80_0000) % 0x100
}

/// The twenty-three bits that hold the fraction.
pub open spec fn fraction_field(bits: u32) -> int {
    bits as int % 0x80_0000
}

/// Whether the pattern is of a number: neither an infinity nor a
/// not-a-number.
pub open spec fn is_finite_bits(bits: u32) -> bool {
    exponent_field(bits) != 0xff
}

/// The significand of a finite number: the fraction, with the leading one
/// that a normal number leaves out.
pub open spec fn significand(bits: u32) -> int {
    if exponent_field(bits) == 0 {
        fraction_field(bits)
    } else {
        fraction_field(bits) + 0x80_0000
    }
}

/// The power of two that the significand of a finite number is to be
/// multiplied by.
pub open spec fn scale_of(bits: u32) -> int {
    if exponent_field(bits) == 0 {
        -149
    } else {
        exponent_field(bits) - 150
    }
}

/// The parts of a bit pattern.
#[derive(Clone, Copy, Debug, PartialEq, Eq, Structural)]
pub struct Decoded {
    pub finite: bool,
    pub significand: u64,
    pub scale: i64,
}

/// Takes a bit pattern apart.
pub fn decode(bits: u32) -> (d: Decoded)
    ensures
        d.finite == is_finite_bits(bits),
        d.significand == significand(bits),
        d.scale == scale_of(bits),
        d.significand < 0x100_0000,
        -149 <= d.scale <= 105,
{
    let exponent: u32 = (bits / 0x80_0000) % 0x100;
    let fraction: u32 = bits % 0x80_0000;
    if exponent == 0 {
        Decoded { finite: true, significand: fraction as u64, scale: -149 }
    } else {
        Decoded {
            finite: exponent != 0xff,
            significand: fraction as u64 + 0x80_0000,
            scale: exponent as i64 - 150,
        }
    }
}

/// Whether `m` times two to the power `e` is rounded to zero: it is where
/// it is at most half of the smallest number above zero, two to the power
/// of -149.
pub open spec fn rounds_to_zero(m: int, e: int) -> bool {
    m == 0 || (e <= -150 && m <= pow2((-150 - e) as nat))
}

/// Two to the power `k`.
fn two_to(k: u32) -> (d: u64)
    requires
        k <= 63,
    ensures
        d == pow2(k as nat),
{
    let mut d: u64 = 1;
    let mut i: u32 = 0;
    proof {
        lemma2_to64();
    }
    while i < k
        invariant
            i <= k <= 63,
            d == pow2(i as nat),
        decreases k - i,
    {
        proof {
            lemma_pow2_unfold((i + 1) as nat);
            lemma_pow2_strictly_increases((i + 1) as nat, 64);
            lemma2_to64();
        }
        d = d * 2;
        i = i + 1;
    }
    d
}

/// Tells whether `m` times two to the power `e` is rounded to zero.
fn negligible(m: u64, e: i64) -> (zero: bool)
    requires
        m < 0x4_0000_0000_0000,
    ensures
        zero == rounds_to_zero(m as int, e as int),
{
    if m == 0 {
        return true;
    }
    if e > -150 {
        return false;
    }
    if e <= -200 {
        proof {
            let k = (-150 - e) as nat;
            lemma2_to64_rest();
            if k > 50 {
                lemma_pow2_strictly_increases(50, k);
            }
        }
        return true;
    }
    let k: u32 = (-150 - e) as u32;
    let d = two_to(k);
    m <= d
}

/// The number of bits that a whole number takes.
pub open spec fn bit_length(m: nat) -> nat
    decreases m,
{
    if m == 0 {
        0
    } else {
        1 + bit_length(m / 2)
    }
}

/// A number lies between the powers of two that its length gives.
pub proof fn lemma_bit_length(m: nat)
    ensures
        m < pow2(bit_length(m)),
        m > 0 ==> pow2((bit_length(m) - 1) as nat) <= m,
    decreases m,
{
    lemma2_to64();
    if m > 0 {
        let l = bit_length(m);
        lemma_bit_length(m / 2);
        lemma_pow2_unfold(l);
        if m / 2 > 0 {
            lemma_pow2_unfold((l - 1) as nat);
        }
    }
}

/// A number below two to the power `k` takes at most `k` bits.
pub proof fn lemma_bit_length_bound(m: nat, k: nat)
    requires
        m < pow2(k),
    ensures
        bit_length(m) <= k,
{
    lemma_bit_length(m);
    if bit_length(m) > k {
        let l = (bit_length(m) - 1) as nat;
        if l > k {
            lemma_pow2_strictly_increases(k, l);
        }
    }
}

/// Counts the bits that a number takes.
pub fn count_bits(m: u64) -> (l: u32)
    ensures
        l == bit_length(m as nat),
        l <= 64,
{
    proof {
        lemma2_to64();
        lemma_bit_length_bound(m as nat, 64);
    }
    let mut l: u32 = 0;
    let mut rest: u64 = m;
    while rest > 0
        invariant
            bit_length(m as nat) == l + bit_length(rest as nat),
            bit_length(m as nat) <= 64,
        decreases rest,
    {
        rest = rest / 2;
        l = l + 1;
    }
    l
}

/// The whole number nearest to `p / d`; of two that are equally near, the
/// even one.
pub open spec fn round_half_even(p: int, d: int) -> int {
    let f = p / d;
    let r = p % d;
    if 2 * r > d || (2 * r == d && f % 2 == 1) {
        f + 1
    } else {
        f
    }
}

/// The power of two of the last bit that is kept of `p` times two to the
/// power `e`: twenty-four bits are kept, and none below the power -149.
pub open spec fn quantum(p: int, e: int) -> int {
    let q = e + bit_length(p as nat) - 24;
    if q < -149 {
        -149
    } else {
        q
    }
}

/// Significand and scale of the number nearest to `p` times two to the
/// power `e`, with as large an exponent as it takes.
pub open spec fn rounded(p: int, e: int) -> (int, int) {
    let q = quantum(p, e);
    if q <= e {
        (p, e)
    } else {
        (round_half_even(p, pow2((q - e) as nat) as int), q)
    }
}

/// Whether `m` times two to the power `e` lies beyond the largest finite
/// number: it does from two to the power 128 on.
pub open spec fn overflows(m: int, e: int) -> bool {
    e + bit_length(m as nat) > 128
}

/// Rounds `p` times two to the power `e` to the nearest single-precision
/// number, and gives its significand and scale.
fn round_to_single(p: u64, e: i64) -> (r: (u64, i64))
    requires
        p < 0x1_0000_0000_0000,
        -400 <= e <= 400,
    ensures
        r.0 == rounded(p as int, e as int).0,
        r.1 == rounded(p as int, e as int).1,
        r.0 <= 0x100_0000,
        -149 <= r.1 <= 448,
{
    proof {
        lemma2_to64();
        lemma2_to64_rest();
        lemma_bit_length_bound(p as nat, 48);
        lemma_bit_length(p as nat);
    }
    let length: u32 = count_bits(p);
    let fit: i64 = e + length as i64 - 24;
    let q: i64 = if fit < -149 {
        -149
    } else {
        fit
    };
    if q <= e {
        proof {
            if length < 24 {
                lemma_pow2_strictly_increases(length as nat, 24);
            }
        }
        return (p, e);
    }
    let shift: i64 = q - e;
    if shift >= 50 {
        proof {
            let d = pow2(shift as nat) as int;
            if shift > 50 {
                lemma_pow2_strictly_increases(50, shift as nat);
            }
            lemma_basic_div(p as int, d);
            lemma_small_mod(p as nat, d as nat);
        }
        return (0, q);
    }
    let d: u64 = two_to(shift as u32);
    proof {
        lemma_pow2_strictly_increases(shift as nat, 50);
        lemma_pow2_pos(shift as nat);
        if length as int <= shift {
            if (length as int) < shift {
                lemma_pow2_strictly_increases(length as nat, shift as nat);
            }
            lemma_basic_div(p as int, d as int);
        } else {
            let high = (length - shift) as nat;
            lemma_pow2_adds(shift as nat, high);
            lemma_multiply_divide_lt(p as int, d as int, pow2(high) as int);
            if high < 24 {
                lemma_pow2_strictly_increases(high, 24);
            }
        }
    }
    let f: u64 = p / d;
    let rest: u64 = p % d;
    if 2 * rest > d || (2 * rest == d && f % 2 == 1) {
        (f + 1, q)
    } else {
        (f, q)
    }
}

/// Whether the product of three numbers, multiplied from left to right, is
/// zero. It is so where the first product is rounded to zero and the third
/// number is finite, and where the first product is a number and its
/// product with the third is rounded to zero. An infinity or a
/// not-a-number among the factors keeps the product from being zero.
pub open spec fn product_vanishes(x: u32, y: u32, z: u32) -> bool {
    if !is_finite_bits(x) || !is_finite_bits(y) {
        false
    } else {
        let p = significand(x) * significand(y);
        let e = scale_of(x) + scale_of(y);
        if rounds_to_zero(p, e) {
            is_finite_bits(z)
        } else {
            let first = rounded(p, e);
            if overflows(first.0, first.1) || !is_finite_bits(z) {
                false
            } else {
                rounds_to_zero(first.0 * significand(z), first.1 + scale_of(z))
            }
        }
    }
}

/// One times one times one is not zero.
pub proof fn lemma_ones_do_not_vanish()
    ensures
        !product_vanishes(0x3f80_0000, 0x3f80_0000, 0x3f80_0000),
{
    let one: u32 = 0x3f80_0000;
    assert(exponent_field(one) == 127 && fraction_field(one) == 0);
    assert(significand(one) == 0x80_0000 && scale_of(one) == -23);
    let p: int = 0x4000_0000_0000;
    assert(significand(one) * significand(one) == p);
    reveal_with_fuel(bit_length, 48);
    assert(bit_length(p as nat) == 47);
    assert(quantum(p, -46) == -23);
    lemma2_to64();
    assert(pow2(23) == 0x80_0000);
    assert(round_half_even(p, 0x80_0000) == 0x80_0000);
    assert(rounded(p, -46) == (0x80_0000int, -23int));
    assert(bit_length(0x80_0000) == 24);
    assert(0x80_0000int * significand(one) == p);
}

/// Tells whether the product of three numbers, multiplied from left to
/// right, is zero.
pub fn product_is_zero(x: u32, y: u32, z: u32) -> (zero: bool)
    ensures
        zero == product_vanishes(x, y, z),
{
    let dx = decode(x);
    let dy = decode(y);
    let dz = decode(z);
    if !dx.finite || !dy.finite {
        return false;
    }
    assert(dx.significand * dy.significand < 0x1_0000_0000_0000) by (nonlinear_arith)
        requires
            dx.significand < 0x100_0000,
            dy.significand < 0x100_0000,
    ;
    let p: u64 = dx.significand * dy.significand;
    let e: i64 = dx.scale + dy.scale;
    if negligible(p, e) {
        return dz.finite;
    }
    let (m, q) = round_to_single(p, e);
    if q + count_bits(m) as i64 > 128 || !dz.finite {
        return false;
    }
    assert(m * dz.significand < 0x1_0000_0000_0000) by (nonlinear_arith)
        requires
            m <= 0x100_0000,
            dz.significand < 0x100_0000,
    ;
    negligible(m * dz.significand, q + dz.scale)
}

} // verus!
