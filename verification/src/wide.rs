//! 256-bit-wide unsigned arithmetic.
//!
//! The liquidity formulas multiply two 128-bit fixed-point square-root prices
//! and divide the 256-bit product, so the engine carries intermediates as a
//! pair of 128-bit halves and proves every step exact: no overflow, no
//! rounding other than the single floor of each division.

use vstd::arithmetic::div_mod::{
    lemma_div_denominator, lemma_div_multiples_vanish, lemma_fundamental_div_mod,
    lemma_fundamental_div_mod_converse, lemma_multiply_divide_lt,
};
use vstd::arithmetic::power2::{lemma2_to64, lemma2_to64_rest, lemma_pow2_adds, pow2};
use vstd::prelude::*;

verus! {

/// 2^64, the scale of one 64-bit word.
pub open spec fn p64() -> int {
    0x1_0000_0000_0000_0000
}

/// 2^128.
pub open spec fn p128() -> int {
    0x1_0000_0000_0000_0000_0000_0000_0000_0000int
}

/// 2^192.
pub open spec fn p192() -> int {
    0x1_0000_0000_0000_0000_0000_0000_0000_0000_0000_0000_0000_0000int
}

/// 2^256.
pub open spec fn p256() -> int {
    0x1_0000_0000_0000_0000_0000_0000_0000_0000_0000_0000_0000_0000_0000_0000_0000_0000int
}

/// The number a 256-bit quantity holds, given as high and low 128-bit halves.
pub open spec fn wide_val(hi: u128, lo: u128) -> int {
    hi * p128() + lo
}

/// 2^64 as an executable constant.
pub const WORD: u128 = 0x1_0000_0000_0000_0000;

/// 2^127 as an executable constant.
pub const HALF_RANGE: u128 = 0x8000_0000_0000_0000_0000_0000_0000_0000;

proof fn lemma_pow2_values()
    ensures
        pow2(0) == 1,
        pow2(1) == 2,
        pow2(64) == p64(),
        pow2(127) == HALF_RANGE as int,
        pow2(128) == p128(),
        pow2(192) == p192(),
        pow2(255) == HALF_RANGE * p128(),
        pow2(256) == p256(),
{
    lemma2_to64();
    lemma2_to64_rest();
    lemma_pow2_adds(63, 64);
    lemma_pow2_adds(64, 64);
    lemma_pow2_adds(64, 128);
    lemma_pow2_adds(127, 128);
    lemma_pow2_adds(128, 128);
    assert(p64() * p64() == p128()) by (nonlinear_arith);
    assert(p64() * p128() == p192()) by (nonlinear_arith);
    assert(p128() * p128() == p256()) by (nonlinear_arith);
}

/// The full 256-bit product of two 128-bit values, as high and low halves.
pub fn wide_mul(a: u128, b: u128) -> (r: (u128, u128))
    ensures
        wide_val(r.0, r.1) == a * b,
{
    let a1 = a / WORD;
    let a0 = a % WORD;
    let b1 = b / WORD;
    let b0 = b % WORD;
    proof {
        lemma_fundamental_div_mod(a as int, WORD as int);
        lemma_fundamental_div_mod(b as int, WORD as int);
        lemma_multiply_divide_lt(a as int, WORD as int, WORD as int);
        lemma_multiply_divide_lt(b as int, WORD as int, WORD as int);
    }
    assert(a0 * b0 < p128() && a0 * b1 < p128() && a1 * b0 < p128() && a1 * b1 < p128())
        by (nonlinear_arith)
        requires
            a0 < 0x1_0000_0000_0000_0000,
            a1 < 0x1_0000_0000_0000_0000,
            b0 < 0x1_0000_0000_0000_0000,
            b1 < 0x1_0000_0000_0000_0000,
    ;
    let p00 = a0 * b0;
    let p01 = a0 * b1;
    let p10 = a1 * b0;
    let p11 = a1 * b1;
    proof {
        lemma_multiply_divide_lt(p00 as int, WORD as int, WORD as int);
        lemma_multiply_divide_lt(p01 as int, WORD as int, WORD as int);
        lemma_multiply_divide_lt(p10 as int, WORD as int, WORD as int);
    }
    let s = p00 / WORD + p01 % WORD + p10 % WORD;
    proof {
        lemma_multiply_divide_lt(s as int, 3, WORD as int);
        // p01, p10 and p11 are products of values below 2^64, so their high
        // words stay below 2^64 - 1 and the high accumulator fits.
        assert(p01 <= (0x1_0000_0000_0000_0000 - 1) * (0x1_0000_0000_0000_0000 - 1)
            && p10 <= (0x1_0000_0000_0000_0000 - 1) * (0x1_0000_0000_0000_0000 - 1)
            && p11 <= (0x1_0000_0000_0000_0000 - 1) * (0x1_0000_0000_0000_0000 - 1))
            by (nonlinear_arith)
            requires
                p01 == a0 * b1,
                p10 == a1 * b0,
                p11 == a1 * b1,
                a0 < 0x1_0000_0000_0000_0000,
                a1 < 0x1_0000_0000_0000_0000,
                b0 < 0x1_0000_0000_0000_0000,
                b1 < 0x1_0000_0000_0000_0000,
        ;
        lemma_multiply_divide_lt(
            p01 as int,
            0x1_0000_0000_0000_0000 - 1,
            0x1_0000_0000_0000_0000,
        );
        lemma_multiply_divide_lt(
            p10 as int,
            0x1_0000_0000_0000_0000 - 1,
            0x1_0000_0000_0000_0000,
        );
    }
    let lo = p00 % WORD + (s % WORD) * WORD;
    let hi = p11 + p01 / WORD + p10 / WORD + s / WORD;
    proof {
        lemma_fundamental_div_mod(p00 as int, WORD as int);
        lemma_fundamental_div_mod(p01 as int, WORD as int);
        lemma_fundamental_div_mod(p10 as int, WORD as int);
        lemma_fundamental_div_mod(s as int, WORD as int);
        assert(a * b == p11 * p128() + p01 * p64() + p10 * p64() + p00) by (nonlinear_arith)
            requires
                a == a1 * 0x1_0000_0000_0000_0000 + a0,
                b == b1 * 0x1_0000_0000_0000_0000 + b0,
                p00 == a0 * b0,
                p01 == a0 * b1,
                p10 == a1 * b0,
                p11 == a1 * b1,
        ;
    }
    (hi, lo)
}

/// Floor division of a 256-bit value by a nonzero 128-bit divisor: the
/// quotient as high and low halves, and the remainder.
pub fn wide_div_rem(n_hi: u128, n_lo: u128, d: u128) -> (r: (u128, u128, u128))
    requires
        d > 0,
    ensures
        wide_val(r.0, r.1) == wide_val(n_hi, n_lo) / d as int,
        r.2 == wide_val(n_hi, n_lo) % d as int,
{
    let ghost n_val: int = wide_val(n_hi, n_lo);
    let mut h = n_hi;
    let mut l = n_lo;
    let mut q_hi: u128 = 0;
    let mut q_lo: u128 = 0;
    let mut rem: u128 = 0;
    let mut i: u32 = 0;
    let ghost mut tail: int = n_val;
    proof {
        lemma_pow2_values();
        assert(n_val < pow2(256));
        assert(wide_val(q_hi, q_lo) == 0);
        assert((wide_val(q_hi, q_lo) * d + rem) * (pow2((256 - i) as nat) as int) + tail
            == n_val) by (nonlinear_arith)
            requires
                wide_val(q_hi, q_lo) == 0,
                rem == 0,
                tail == n_val,
        ;
    }
    while i < 256
        invariant
            i <= 256,
            d > 0,
            rem < d,
            n_val == wide_val(n_hi, n_lo),
            wide_val(h, l) == tail * pow2(i as nat),
            0 <= tail < pow2((256 - i) as nat),
            n_val == (wide_val(q_hi, q_lo) * d + rem) * pow2((256 - i) as nat) + tail,
            wide_val(q_hi, q_lo) < pow2(i as nat),
        decreases 256 - i,
    {
        proof {
            lemma_pow2_values();
            lemma_pow2_adds((255 - i) as nat, 1);
            lemma_pow2_adds(i as nat, 1);
            lemma_pow2_adds(i as nat, (255 - i) as nat);
            lemma_pow2_adds((255 - i) as nat, (i + 1) as nat);
            lemma2_to64();
        }
        let ghost qv: int = wide_val(q_hi, q_lo);
        let ghost e: nat = (255 - i) as nat;
        // take the most significant bit of the shifting numerator
        let bit = h / HALF_RANGE;
        proof {
            lemma_multiply_divide_lt(h as int, 2, HALF_RANGE as int);
            lemma_fundamental_div_mod_converse(
                wide_val(h, l),
                p128(),
                h as int,
                l as int,
            );
            lemma_div_denominator(wide_val(h, l), p128(), HALF_RANGE as int);
            lemma_div_denominator(wide_val(h, l), pow2(i as nat) as int, pow2(e) as int);
            lemma_div_multiples_vanish(tail, pow2(i as nat) as int);
            assert(wide_val(h, l) / (pow2(i as nat) as int) == tail) by {
                assert(wide_val(h, l) == pow2(i as nat) * tail) by (nonlinear_arith)
                    requires
                        wide_val(h, l) == tail * pow2(i as nat),
                ;
            }
            assert(pow2(i as nat) * pow2(e) == pow2(255) == p128() * HALF_RANGE);
            assert(bit == tail / (pow2(e) as int));
            lemma_multiply_divide_lt(tail, 2, pow2(e) as int);
            lemma_fundamental_div_mod(tail, pow2(e) as int);
        }
        let ghost tail2: int = tail % pow2(e) as int;
        // shift the numerator registers left by one bit
        proof {
            lemma_fundamental_div_mod(h as int, HALF_RANGE as int);
            lemma_fundamental_div_mod(l as int, HALF_RANGE as int);
            lemma_multiply_divide_lt(l as int, 2, HALF_RANGE as int);
        }
        let h2 = (h % HALF_RANGE) * 2 + l / HALF_RANGE;
        let l2 = (l % HALF_RANGE) * 2;
        proof {
            assert(wide_val(h2, l2) == 2 * wide_val(h, l) - bit * p256());
            assert(wide_val(h2, l2) == tail2 * pow2((i + 1) as nat)) by (nonlinear_arith)
                requires
                    wide_val(h2, l2) == 2 * wide_val(h, l) - bit * p256(),
                    wide_val(h, l) == tail * pow2(i as nat),
                    tail == pow2(e) * bit + tail2,
                    pow2((i + 1) as nat) == 2 * pow2(i as nat),
                    pow2(e) * pow2((i + 1) as nat) == p256(),
            ;
        }
        // fold the bit into the running remainder, subtracting the divisor
        // once when it no longer fits
        let (qbit, rem2): (u128, u128) = if rem < HALF_RANGE {
            let t = rem * 2 + bit;
            if t >= d {
                (1, t - d)
            } else {
                (0, t)
            }
        } else {
            // 2 * rem + bit exceeds any 128-bit divisor, so the quotient bit
            // is set; the new remainder 2 * rem + bit - d stays below d
            (1, (rem - (d - rem)) + bit)
        };
        proof {
            assert(2 * rem + bit == qbit * d + rem2);
            assert(rem2 < d);
        }
        // shift the quotient left and append the new bit
        proof {
            lemma_fundamental_div_mod(q_lo as int, HALF_RANGE as int);
            lemma_multiply_divide_lt(q_lo as int, 2, HALF_RANGE as int);
            if i < 255 {
                vstd::arithmetic::power2::lemma_pow2_strictly_increases(i as nat, 255);
            }
            lemma_multiply_divide_lt(qv, HALF_RANGE as int, p128());
            lemma_fundamental_div_mod_converse(qv, p128(), q_hi as int, q_lo as int);
        }
        let q_hi2 = q_hi * 2 + q_lo / HALF_RANGE;
        let q_lo2 = (q_lo % HALF_RANGE) * 2 + qbit;
        proof {
            assert(wide_val(q_hi2, q_lo2) == 2 * qv + qbit);
            assert(n_val == (wide_val(q_hi2, q_lo2) * d + rem2) * pow2(e) + tail2)
                by (nonlinear_arith)
                requires
                    n_val == (qv * d + rem) * pow2((e + 1) as nat) + tail,
                    pow2((e + 1) as nat) == 2 * pow2(e),
                    tail == pow2(e) * bit + tail2,
                    2 * rem + bit == qbit * d + rem2,
                    wide_val(q_hi2, q_lo2) == 2 * qv + qbit,
            ;
            assert(wide_val(q_hi2, q_lo2) < pow2((i + 1) as nat));
            tail = tail2;
        }
        h = h2;
        l = l2;
        q_hi = q_hi2;
        q_lo = q_lo2;
        rem = rem2;
        i = i + 1;
    }
    proof {
        lemma_pow2_values();
        assert(tail == 0);
        assert(n_val == wide_val(q_hi, q_lo) * d + rem) by (nonlinear_arith)
            requires
                n_val == (wide_val(q_hi, q_lo) * d + rem) * (pow2((256 - i) as nat) as int)
                    + tail,
                tail == 0,
                pow2((256 - i) as nat) == 1,
        ;
        lemma_fundamental_div_mod_converse(
            n_val,
            d as int,
            wide_val(q_hi, q_lo),
            rem as int,
        );
    }
    (q_hi, q_lo, rem)
}

} // verus!
