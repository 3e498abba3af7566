//! Power-of-two alignment arithmetic over machine words.
//!
//! The alignment granule is given as a bit count, so a granule is always a
//! power of two and the computations reduce to shifts and masks. Rounding up
//! wraps modulo 2^64, as the underlying machine arithmetic does: a value
//! within one granule of the top of the address space rounds up to zero.

use vstd::prelude::*;
use vstd::arithmetic::div_mod::{
    lemma_fundamental_div_mod,
    lemma_fundamental_div_mod_converse,
    lemma_mod_multiples_basic,
    lemma_small_mod,
};
use vstd::arithmetic::power2::{lemma2_to64, lemma2_to64_rest, lemma_pow2_adds, lemma_pow2_pos, pow2};
use vstd::bits::{
    lemma_u64_low_bits_mask_is_mod,
    lemma_u64_pow2_no_overflow,
    lemma_u64_shl_is_mul,
    lemma_u64_shr_is_div,
    low_bits_mask,
};

verus! {

/// The alignment granule in bytes: 2^alignment_bits.
pub open spec fn spec_alignment(alignment_bits: u32) -> int {
    pow2(alignment_bits as nat) as int
}

/// `value` rounded down to the nearest multiple of the granule.
pub open spec fn spec_align_down(value: u64, alignment_bits: u32) -> u64 {
    ((value as int / spec_alignment(alignment_bits)) * spec_alignment(alignment_bits)) as u64
}

/// `value` rounded up to the nearest multiple of the granule, modulo 2^64.
pub open spec fn spec_align_up(value: u64, alignment_bits: u32) -> u64 {
    let granule: int = spec_alignment(alignment_bits);
    ((((value as int + granule - 1) / granule) * granule) % 0x1_0000_0000_0000_0000int) as u64
}

/// The granule is positive, fits a machine word, and is what the machine
/// shift computes.
proof fn lemma_granule(alignment_bits: u32)
    requires
        alignment_bits < 64,
    ensures
        0 < pow2(alignment_bits as nat) <= u64::MAX,
        (1u64 << (alignment_bits as u64)) == pow2(alignment_bits as nat),
{
    lemma_u64_pow2_no_overflow(alignment_bits as nat);
    lemma_u64_shl_is_mul(1u64, alignment_bits as u64);
}

/// The wrapping mask computation of rounding up agrees with its arithmetic
/// statement: subtracting the remainder from the wrapped sum is division
/// rounding, and the one case where the true rounded value is 2^64 itself
/// lands on zero either way.
proof fn lemma_align_up_arith(value: u64, alignment_bits: u32)
    requires
        alignment_bits < 64,
    ensures
        ({
            let granule: int = spec_alignment(alignment_bits);
            let wrapped: int = (value as int + granule - 1) % 0x1_0000_0000_0000_0000int;
            wrapped - (wrapped % granule) == spec_align_up(value, alignment_bits)
        }),
{
    let g: int = spec_alignment(alignment_bits);
    let m: int = 0x1_0000_0000_0000_0000int;
    lemma_pow2_pos(alignment_bits as nat);
    lemma_u64_pow2_no_overflow(alignment_bits as nat);
    let s: int = value as int + g - 1;
    if s < m {
        assert(s % m == s);
        lemma_fundamental_div_mod(s, g);
        assert(0 <= s / g) by (nonlinear_arith)
            requires
                s >= 0,
                g > 0,
        ;
        assert(0 <= (s / g) * g <= s) by (nonlinear_arith)
            requires
                g > 0,
                0 <= s / g,
                s == g * (s / g) + s % g,
                0 <= s % g,
        ;
        assert(((s / g) * g) % m == (s / g) * g);
    } else {
        // The sum crossed the top of the address space: value + granule - 1
        // lies in [2^64, 2^64 + granule - 2], so both sides are zero.
        let w: int = s - m;
        assert(0 <= w);
        assert(w <= g - 2);
        assert(s % m == w) by {
            lemma_fundamental_div_mod_converse(s, m, 1, w);
        }
        assert(w % g == w) by {
            lemma_small_mod(w as nat, g as nat);
        }
        let q: int = pow2((64 - alignment_bits) as nat) as int;
        lemma_pow2_adds(alignment_bits as nat, (64 - alignment_bits) as nat);
        lemma2_to64();
        lemma2_to64_rest();
        assert(g * q == m);
        assert(q * g == m) by (nonlinear_arith)
            requires
                g * q == m,
        ;
        lemma_fundamental_div_mod_converse(s, g, q, w);
        assert((s / g) * g == m);
        assert(m % m == 0);
    }
}

/// Rounds `value` up to the nearest multiple of `2^alignment_bits`,
/// wrapping to zero within one granule of the top of the address space.
pub fn align_up(value: u64, alignment_bits: u32) -> (r: u64)
    requires
        1 <= alignment_bits < 64,
    ensures
        r == spec_align_up(value, alignment_bits),
{
    proof {
        lemma_granule(alignment_bits);
    }
    let granule: u64 = 1u64 << (alignment_bits as u64);
    let wrapped: u64 = value.wrapping_add(granule - 1);
    let r: u64 = wrapped & !(granule - 1);
    proof {
        assert(wrapped == (value as int + granule - 1) % 0x1_0000_0000_0000_0000int);
        assert(wrapped & !((granule - 1) as u64) == wrapped - (wrapped & ((granule
            - 1) as u64))) by (bit_vector);
        lemma_u64_low_bits_mask_is_mod(wrapped, alignment_bits as nat);
        assert((granule - 1) as u64 == low_bits_mask(alignment_bits as nat) as u64);
        lemma_align_up_arith(value, alignment_bits);
    }
    r
}

/// Rounds `value` up to the nearest multiple of `2^alignment_bits` and
/// divides the result by the granule, giving the index of the granule that
/// `value` rounds into.
pub fn align_up_div(value: u64, alignment_bits: u32) -> (r: u64)
    requires
        1 <= alignment_bits < 64,
    ensures
        r == spec_align_up(value, alignment_bits) as int / spec_alignment(alignment_bits),
{
    proof {
        lemma_granule(alignment_bits);
    }
    let granule: u64 = 1u64 << (alignment_bits as u64);
    align_up(value, alignment_bits) / granule
}

/// Rounds `value` down to the nearest multiple of `2^alignment_bits`.
pub fn align_down(value: u64, alignment_bits: u32) -> (r: u64)
    requires
        1 <= alignment_bits < 64,
    ensures
        r == spec_align_down(value, alignment_bits),
{
    proof {
        lemma_granule(alignment_bits);
    }
    let shifted: u64 = value >> (alignment_bits as u64);
    proof {
        lemma_u64_shr_is_div(value, alignment_bits as u64);
        assert(shifted * pow2(alignment_bits as nat) <= value) by (nonlinear_arith)
            requires
                shifted == value as nat / pow2(alignment_bits as nat),
                pow2(alignment_bits as nat) > 0,
        ;
        lemma_u64_shl_is_mul(shifted, alignment_bits as u64);
    }
    let r: u64 = shifted << (alignment_bits as u64);
    r
}

/// Divides `value` by the granule `2^alignment_bits`, rounding down: the
/// index of the granule that `value` falls in.
pub fn align_down_div(value: u64, alignment_bits: u32) -> (r: u64)
    requires
        1 <= alignment_bits < 64,
    ensures
        r == value as int / spec_alignment(alignment_bits),
{
    proof {
        lemma_granule(alignment_bits);
        lemma_u64_shr_is_div(value, alignment_bits as u64);
    }
    value >> (alignment_bits as u64)
}

/// Rounding up is idempotent: what rounding up returns is a multiple of the
/// granule, and a multiple rounds up to itself.
pub proof fn lemma_align_up_idempotent(value: u64, alignment_bits: u32)
    requires
        1 <= alignment_bits < 64,
    ensures
        spec_align_up(spec_align_up(value, alignment_bits), alignment_bits) == spec_align_up(
            value,
            alignment_bits,
        ),
{
    let g: int = spec_alignment(alignment_bits);
    let m: int = 0x1_0000_0000_0000_0000int;
    lemma_pow2_pos(alignment_bits as nat);
    lemma_u64_pow2_no_overflow(alignment_bits as nat);
    let q: int = pow2((64 - alignment_bits) as nat) as int;
    lemma_pow2_adds(alignment_bits as nat, (64 - alignment_bits) as nat);
    lemma2_to64();
    lemma2_to64_rest();
    assert(g * q == m);

    lemma_align_up_arith(value, alignment_bits);
    let wrapped: int = (value as int + g - 1) % m;
    let once: int = spec_align_up(value, alignment_bits) as int;
    lemma_fundamental_div_mod(wrapped, g);
    assert(once == g * (wrapped / g));

    lemma_align_up_arith(spec_align_up(value, alignment_bits), alignment_bits);
    if once == 0 {
        // Rounding zero up: the sum g - 1 is below the granule, so the
        // quotient and both sides are zero.
        assert((g - 1) % m == g - 1) by {
            lemma_small_mod((g - 1) as nat, m as nat);
        }
        lemma_fundamental_div_mod_converse(g - 1, g, 0, g - 1);
        assert(((g - 1) / g) * g == 0);
        assert(0int % m == 0);
    } else {
        // A positive multiple of the granule is at most 2^64 - granule, so
        // adding granule - 1 neither wraps nor reaches the next multiple.
        let k: int = wrapped / g;
        assert(once == g * k);
        assert(k >= 1) by (nonlinear_arith)
            requires
                once == g * k,
                once > 0,
                g > 0,
        ;
        assert(k < q) by (nonlinear_arith)
            requires
                once == g * k,
                g * q == m,
                once < m,
                g > 0,
        ;
        assert(g * k <= m - g) by (nonlinear_arith)
            requires
                k <= q - 1,
                g > 0,
                g * q == m,
        ;
        let s: int = once + g - 1;
        assert(s < m);
        assert(s % m == s) by {
            lemma_small_mod(s as nat, m as nat);
        }
        assert(s == k * g + (g - 1)) by (nonlinear_arith)
            requires
                once == g * k,
                s == once + g - 1,
        ;
        lemma_fundamental_div_mod_converse(s, g, k, g - 1);
        assert((s / g) * g == once) by {
            assert(s / g == k);
            assert(k * g == g * k) by (nonlinear_arith);
        }
        assert(once % m == once) by {
            lemma_small_mod(once as nat, m as nat);
        }
    }
}

/// Rounding down is idempotent in the same way.
pub proof fn lemma_align_down_idempotent(value: u64, alignment_bits: u32)
    requires
        1 <= alignment_bits < 64,
    ensures
        spec_align_down(spec_align_down(value, alignment_bits), alignment_bits) == spec_align_down(
            value,
            alignment_bits,
        ),
{
    let g: int = spec_alignment(alignment_bits);
    lemma_pow2_pos(alignment_bits as nat);
    let quotient: int = value as int / g;
    assert(0 <= quotient * g <= value) by (nonlinear_arith)
        requires
            g >= 1,
            quotient == value as int / g,
            value >= 0,
    ;
    assert((quotient * g) / g == quotient) by (nonlinear_arith)
        requires
            g >= 1,
    ;
}

} // verus!
