use vstd::arithmetic::power2::{lemma2_to64, lemma2_to64_rest, lemma_pow2_pos, lemma_pow2_strictly_increases, lemma_pow2_unfold, pow2};
use vstd::bits::{lemma_u64_shl_is_mul, lemma_u64_shr_is_div};
use vstd::prelude::*;

verus! {

/// The smallest coordinate that a native integer call accepts.
pub const NATIVE_MIN: i32 = -0x8000_0000;

/// The largest coordinate that a native integer call accepts.
pub const NATIVE_MAX: i32 = 0x7fff_ffff;

/// The value nearest to `v` within the native integer range.
pub open spec fn clamp_native(v: int) -> int {
    if v < NATIVE_MIN {
        NATIVE_MIN as int
    } else if v > NATIVE_MAX {
        NATIVE_MAX as int
    } else {
        v
    }
}

/// A pointer coordinate as a caller gives it: a double-precision number, held
/// by its bit pattern (sign, 11 bits of exponent, 52 bits of fraction).
#[derive(Clone, Copy, Debug, PartialEq, Eq, Structural)]
pub struct Coordinate {
    pub bits: u64,
}

impl Coordinate {
    /// Whether the sign bit is set.
    pub open spec fn negative(self) -> bool {
        self.bits as nat / 0x8000_0000_0000_0000 == 1
    }

    /// The biased exponent, between 0 and 2047.
    pub open spec fn exponent_field(self) -> nat {
        (self.bits as nat / 0x10_0000_0000_0000) % 2048
    }

    /// The 52 stored bits of the significand.
    pub open spec fn fraction_field(self) -> nat {
        self.bits as nat % 0x10_0000_0000_0000
    }

    /// Whether the number is neither an infinity nor a NaN.
    pub open spec fn finite(self) -> bool {
        self.exponent_field() != 2047
    }

    /// The integer `m` such that the number's magnitude is `m * 2^scale`.
    pub open spec fn significand(self) -> nat {
        if self.exponent_field() == 0 {
            self.fraction_field()
        } else {
            self.fraction_field() + 0x10_0000_0000_0000
        }
    }

    /// The power of two that scales the significand; it may be negative.
    pub open spec fn scale(self) -> int {
        if self.exponent_field() == 0 {
            -1074
        } else {
            self.exponent_field() - 1075
        }
    }

    /// The magnitude of a finite number, rounded to the nearest integer; a
    /// magnitude half-way between two integers goes to the larger.
    pub open spec fn rounded_magnitude(self) -> nat {
        if self.scale() >= 0 {
            self.significand() * pow2(self.scale() as nat)
        } else {
            let k = (-self.scale()) as nat;
            (self.significand() + pow2((k - 1) as nat)) / pow2(k)
        }
    }

    /// A finite number rounded to the nearest integer, ties away from zero.
    pub open spec fn rounded(self) -> int {
        if self.negative() {
            -(self.rounded_magnitude() as int)
        } else {
            self.rounded_magnitude() as int
        }
    }

    /// The integer handed to a native call: zero for a number that is not
    /// finite, else the rounded number brought into the native range.
    pub open spec fn native(self) -> int {
        if self.finite() {
            clamp_native(self.rounded())
        } else {
            0
        }
    }

    /// Takes a coordinate by the bits of a double-precision number.
    pub fn from_bits(bits: u64) -> (c: Coordinate)
        ensures
            c.bits == bits,
    {
        Coordinate { bits }
    }

    /// Whether the number is neither an infinity nor a NaN.
    pub fn is_finite(self) -> (r: bool)
        ensures
            r == self.finite(),
    {
        let bits: u64 = self.bits;
        assert(((bits >> 52) & 0x7ff) == (bits / 0x10_0000_0000_0000) % 2048) by (bit_vector);
        (bits >> 52) & 0x7ff != 0x7ff
    }

    /// Sanitizes the coordinate for a native integer call.
    pub fn to_native(self) -> (r: i32)
        ensures
            r == self.native(),
    {
        let bits: u64 = self.bits;
        let exponent: u64 = (bits >> 52) & 0x7ff;
        let fraction: u64 = bits & 0xf_ffff_ffff_ffff;
        let negative: bool = (bits >> 63) == 1;
        assert(((bits >> 52) & 0x7ff) == (bits / 0x10_0000_0000_0000) % 2048) by (bit_vector);
        assert((bits & 0xf_ffff_ffff_ffff) == bits % 0x10_0000_0000_0000) by (bit_vector);
        assert((bits >> 63) == bits / 0x8000_0000_0000_0000) by (bit_vector);
        assert(exponent == self.exponent_field());
        assert(fraction == self.fraction_field());
        assert(negative == self.negative());
        if exponent == 0x7ff {
            return 0;
        }
        if exponent <= 1021 {
            proof {
                lemma_below_half_rounds_to_zero(self);
            }
            return 0;
        }
        if exponent >= 1054 {
            proof {
                lemma_large_magnitude(self);
            }
            return if negative {
                NATIVE_MIN
            } else {
                NATIVE_MAX
            };
        }
        let significand: u64 = fraction + 0x10_0000_0000_0000;
        let k: u64 = 1075 - exponent;
        let half: u64 = 1u64 << (k - 1);
        proof {
            lemma2_to64();
            lemma2_to64_rest();
            lemma_u64_shl_is_mul(1, (k - 1) as u64);
            assert(half == pow2((k - 1) as nat));
            assert(pow2((k - 1) as nat) <= pow2(52)) by {
                if k - 1 < 52 {
                    lemma_pow2_strictly_increases((k - 1) as nat, 52);
                }
            }
        }
        let sum: u64 = significand + half;
        let magnitude: u64 = sum >> k;
        proof {
            lemma_u64_shr_is_div(sum, k);
            assert(magnitude == self.rounded_magnitude());
        }
        if negative {
            if magnitude >= 0x8000_0000 {
                NATIVE_MIN
            } else {
                -(magnitude as i32)
            }
        } else {
            if magnitude > 0x7fff_ffff {
                NATIVE_MAX
            } else {
                magnitude as i32
            }
        }
    }
}

/// A finite number below one half in magnitude rounds to zero.
proof fn lemma_below_half_rounds_to_zero(c: Coordinate)
    requires
        c.exponent_field() <= 1021,
    ensures
        c.rounded_magnitude() == 0,
{
    let k = (-c.scale()) as nat;
    let m = c.significand();
    assert(k >= 54);
    assert(m < 0x20_0000_0000_0000);
    lemma2_to64_rest();
    assert(pow2(53) == 0x20_0000_0000_0000);
    assert(pow2((k - 1) as nat) >= pow2(53)) by {
        if k - 1 > 53 {
            lemma_pow2_strictly_increases(53, (k - 1) as nat);
        }
    }
    lemma_pow2_unfold(k);
    assert(pow2(k) == 2 * pow2((k - 1) as nat));
    let d = pow2(k) as int;
    let n = (m + pow2((k - 1) as nat)) as int;
    assert(0 <= n < d);
    assert(n / d == 0) by (nonlinear_arith)
        requires
            0 <= n < d,
    ;
}

/// A finite number of magnitude at least 2^31 lies outside the native range
/// on its side of zero.
proof fn lemma_large_magnitude(c: Coordinate)
    requires
        1054 <= c.exponent_field(),
    ensures
        c.rounded_magnitude() >= 0x8000_0000,
{
    let m = c.significand();
    assert(m >= 0x10_0000_0000_0000);
    lemma2_to64();
    lemma2_to64_rest();
    if c.scale() >= 0 {
        let p = pow2(c.scale() as nat);
        lemma_pow2_pos(c.scale() as nat);
        assert(m * p >= m) by (nonlinear_arith)
            requires
                p >= 1,
                m >= 0,
        ;
    } else {
        let k = (-c.scale()) as nat;
        assert(1 <= k <= 21);
        assert(pow2(k) <= pow2(21)) by {
            if k < 21 {
                lemma_pow2_strictly_increases(k, 21);
            }
        }
        lemma_pow2_pos(k);
        let d = pow2(k) as int;
        let n = (m + pow2((k - 1) as nat)) as int;
        assert(pow2(21) == 0x20_0000);
        assert(n >= 0x8000_0000 * d) by (nonlinear_arith)
            requires
                n >= 0x10_0000_0000_0000,
                0 < d <= 0x20_0000,
        ;
        assert(n / d >= 0x8000_0000) by (nonlinear_arith)
            requires
                n >= 0x8000_0000 * d,
                d > 0,
        ;
    }
}

} // verus!
