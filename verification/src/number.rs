//! Numbers as a remote row holds them: IEEE 754 double precision, carried by
//! bit pattern, and rounded to integers by integer arithmetic alone.

use vstd::arithmetic::power2::{
    lemma2_to64,
    lemma2_to64_rest,
    lemma_pow2_pos,
    lemma_pow2_strictly_increases,
    lemma_pow2_unfold,
    pow2,
};
use vstd::bits::{lemma_u64_shl_is_mul, lemma_u64_shr_is_div};
use vstd::prelude::*;

verus! {

/// Two to the power 52: the weight of the implicit leading bit of a double.
pub const HIDDEN_BIT: u64 = 0x10_0000_0000_0000;

/// A number of a remote row: the bit pattern of its double-precision value and
/// the decimal text that the source of the row gives for it.
#[derive(Debug, PartialEq, Eq)]
pub struct Number {
    pub bits: u64,
    pub text: String,
}

/// What a `Number` is in contracts.
pub struct NumberView {
    pub bits: u64,
    pub text: Seq<char>,
}

impl View for Number {
    type V = NumberView;

    open spec fn view(&self) -> NumberView {
        NumberView { bits: self.bits, text: self.text@ }
    }
}

/// The sign of a double: set for negative values.
pub open spec fn sign_of(bits: u64) -> bool {
    bits >= 0x8000_0000_0000_0000
}

/// The eleven exponent bits of a double.
pub open spec fn exponent_of(bits: u64) -> int {
    (bits as int / 0x10_0000_0000_0000) % 2048
}

/// The fifty-two fraction bits of a double.
pub open spec fn fraction_of(bits: u64) -> int {
    bits as int % 0x10_0000_0000_0000
}

/// The double is not a number.
pub open spec fn is_nan(bits: u64) -> bool {
    exponent_of(bits) == 2047 && fraction_of(bits) != 0
}

/// The double is positive or negative infinity.
pub open spec fn is_infinite(bits: u64) -> bool {
    exponent_of(bits) == 2047 && fraction_of(bits) == 0
}

/// The absolute value of a finite double, rounded to the nearest integer, a
/// half rounded away from zero. A normal double is `m * 2^(e - 1075)` with
/// `m = 2^52 + fraction`; zero and the subnormal doubles lie below one half.
pub open spec fn rounded_magnitude(bits: u64) -> int {
    let e = exponent_of(bits);
    let m = 0x10_0000_0000_0000 + fraction_of(bits);
    if e == 0 {
        0
    } else if e >= 1075 {
        m * pow2((e - 1075) as nat)
    } else {
        (m + pow2((1074 - e) as nat)) / (pow2((1075 - e) as nat) as int)
    }
}

/// `v` brought into the range from `lo` to `hi`.
pub open spec fn clamp(v: int, lo: int, hi: int) -> int {
    if v < lo {
        lo
    } else if v > hi {
        hi
    } else {
        v
    }
}

/// The double rounded to the nearest integer between `lo` and `hi`: a half is
/// rounded away from zero, a value beyond the range gives the bound on its
/// side, and what is not a number gives zero.
pub open spec fn rounded_within(bits: u64, lo: int, hi: int) -> int {
    if is_nan(bits) {
        0
    } else if is_infinite(bits) {
        if sign_of(bits) {
            lo
        } else {
            hi
        }
    } else if sign_of(bits) {
        clamp(-rounded_magnitude(bits), lo, hi)
    } else {
        clamp(rounded_magnitude(bits), lo, hi)
    }
}

/// The double with bit pattern `bits`, rounded to the nearest 64-bit integer.
pub fn round_to_i64(bits: u64) -> (r: i64)
    ensures
        r == rounded_within(bits, i64::MIN as int, i64::MAX as int),
{
    let negative = (bits >> 63) != 0;
    let e: u64 = (bits >> 52) & 0x7ff;
    let f: u64 = bits & 0xf_ffff_ffff_ffff;
    proof {
        assert(((bits >> 63) != 0) == (bits >= 0x8000_0000_0000_0000)) by (bit_vector);
        assert((bits >> 52) & 0x7ff == (bits / 0x10_0000_0000_0000) % 2048) by (bit_vector);
        assert(bits & 0xf_ffff_ffff_ffff == bits % 0x10_0000_0000_0000) by (bit_vector);
        assert(e == exponent_of(bits));
        assert(f == fraction_of(bits));
        lemma2_to64();
        lemma2_to64_rest();
    }
    if e == 0x7ff {
        return if f != 0 {
            0
        } else if negative {
            i64::MIN
        } else {
            i64::MAX
        };
    }
    if e == 0 {
        return 0;
    }
    let m: u64 = HIDDEN_BIT + f;
    if e >= 1075 {
        let s: u64 = e - 1075;
        if s >= 11 {
            proof {
                if s > 11 {
                    lemma_pow2_strictly_increases(11, s as nat);
                }
                assert(m * pow2(s as nat) >= 0x8000_0000_0000_0000) by (nonlinear_arith)
                    requires
                        m >= 0x10_0000_0000_0000,
                        pow2(s as nat) >= 2048,
                ;
            }
            return if negative {
                i64::MIN
            } else {
                i64::MAX
            };
        }
        proof {
            if s < 10 {
                lemma_pow2_strictly_increases(s as nat, 10);
            }
            lemma_pow2_pos(s as nat);
            assert(m * pow2(s as nat) < 0x8000_0000_0000_0000) by (nonlinear_arith)
                requires
                    m < 0x20_0000_0000_0000,
                    0 < pow2(s as nat) <= 1024,
            ;
            lemma_u64_shl_is_mul(m, s);
        }
        let mag: u64 = m << s;
        return if negative {
            -(mag as i64)
        } else {
            mag as i64
        };
    }
    let s: u64 = 1075 - e;
    if s >= 54 {
        proof {
            let half = pow2((s - 1) as nat);
            if s > 54 {
                lemma_pow2_strictly_increases(53, (s - 1) as nat);
            }
            lemma_pow2_unfold(s as nat);
            assert((m + half) / (pow2(s as nat) as int) == 0) by (nonlinear_arith)
                requires
                    0 <= m + half < pow2(s as nat),
            ;
        }
        return 0;
    }
    proof {
        if s < 53 {
            lemma_pow2_strictly_increases((s - 1) as nat, 52);
        }
        lemma_pow2_pos((s - 1) as nat);
        lemma_u64_shl_is_mul(1, (s - 1) as u64);
    }
    let half: u64 = 1u64 << (s - 1);
    let x: u64 = m + half;
    proof {
        lemma_u64_shr_is_div(x, s);
        lemma_pow2_pos(s as nat);
        assert(x as int / (pow2(s as nat) as int) <= x) by (nonlinear_arith)
            requires
                0 <= x,
                pow2(s as nat) > 0,
        ;
    }
    let mag: u64 = x >> s;
    if negative {
        -(mag as i64)
    } else {
        mag as i64
    }
}

/// The double with bit pattern `bits`, rounded to the nearest 32-bit integer.
pub fn round_to_i32(bits: u64) -> (r: i32)
    ensures
        r == rounded_within(bits, i32::MIN as int, i32::MAX as int),
{
    let wide = round_to_i64(bits);
    if wide < -2147483648 {
        -2147483648
    } else if wide > 2147483647 {
        2147483647
    } else {
        wide as i32
    }
}

impl Number {
    /// A number from the bit pattern of its value and its decimal text.
    pub fn new(bits: u64, text: String) -> (r: Number)
        ensures
            r@ == (NumberView { bits, text: text@ }),
    {
        Number { bits, text }
    }

    /// The number rounded to the nearest 64-bit integer.
    pub fn round_to_i64(&self) -> (r: i64)
        ensures
            r == rounded_within(self.bits, i64::MIN as int, i64::MAX as int),
    {
        round_to_i64(self.bits)
    }

    /// The number rounded to the nearest 32-bit integer.
    pub fn round_to_i32(&self) -> (r: i32)
        ensures
            r == rounded_within(self.bits, i32::MIN as int, i32::MAX as int),
    {
        round_to_i32(self.bits)
    }
}

impl Clone for Number {
    fn clone(&self) -> (r: Self)
        ensures
            r@ == self@,
    {
        Number { bits: self.bits, text: self.text.clone() }
    }
}

} // verus!
