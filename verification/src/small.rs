//! The immediate small-integer value type: a signed value guaranteed to fit in
//! the magnitude field of a tagged machine word (the word width minus the bits
//! reserved for the type tag and the sign flag).

use vstd::prelude::*;
use vstd::arithmetic::div_mod::{
    lemma_basic_div, lemma_div_nonincreasing, lemma_div_pos_is_pos,
    lemma_fundamental_div_mod, lemma_fundamental_div_mod_converse,
    lemma_fundamental_div_mod_converse_mod, lemma_mod_division_less_than_divisor,
};
use vstd::arithmetic::mul::lemma_mul_inequality;
use vstd::arithmetic::power2::{
    lemma2_to64, lemma2_to64_rest, lemma_pow2_pos, lemma_pow2_strictly_increases,
    lemma_pow2_unfold, pow2,
};
use vstd::pervasive::unreached;

use crate::big::{big_from_i64, big_mul, big_shl, BigInteger};
use crate::integer::Integer;

verus! {

/// Bits of a word reserved for the type tag (4) and the sign flag (1).
pub const RESERVED_BITS: u64 = 5;

/// Bits of a word left for the magnitude of an immediate integer.
pub const NUM_BITS: u64 = 59;

/// Largest value representable as an immediate small integer: 2^59 - 1.
pub const MAX_VALUE: i64 = 0x07FF_FFFF_FFFF_FFFF;

/// Smallest value representable as an immediate small integer: the bitwise
/// complement of `MAX_VALUE`, that is -2^59.
pub const MIN_VALUE: i64 = -0x0800_0000_0000_0000;

/// Error returned when a value does not fit the small-integer range.
#[derive(Clone, Copy, Debug, PartialEq, Eq, Structural)]
pub struct TryFromIntError;

/// Domain error of the arithmetic protocol: a zero right-hand operand of
/// division or remainder. Distinct from overflow, which is not an error but
/// the designed promotion to arbitrary precision.
#[derive(Clone, Copy, Debug, PartialEq, Eq, Structural)]
pub enum ArithmeticError {
    DivisionByZero,
}

/// Truncating (round-toward-zero) division, the semantics of the native
/// checked division the operator protocol builds on.
pub open spec fn trunc_div(x: int, d: int) -> int {
    if x == 0 {
        0
    } else if x > 0 && d > 0 {
        x / d
    } else if x < 0 && d < 0 {
        (x * -1) / (d * -1)
    } else if x < 0 {
        ((x * -1) / d) * -1
    } else {
        (x / (d * -1)) * -1
    }
}

/// Remainder matching truncating division: it takes the sign of the dividend.
pub open spec fn trunc_rem(x: int, d: int) -> int {
    if x == 0 {
        0
    } else if x > 0 && d > 0 {
        x % d
    } else if x < 0 && d < 0 {
        ((x * -1) % (d * -1)) * -1
    } else if x < 0 {
        ((x * -1) % d) * -1
    } else {
        x % (d * -1)
    }
}

/// The truncated quotient of small-range operands never leaves the native
/// width, and the remainder never leaves the small range.
proof fn lemma_trunc_div_rem_bounds(x: int, d: int)
    requires
        d != 0,
        in_small_range(x),
        in_small_range(d),
    ensures
        -0x0800_0000_0000_0000 <= trunc_div(x, d) <= 0x0800_0000_0000_0000,
        in_small_range(trunc_rem(x, d)),
{
    if x == 0 {
    } else if x > 0 && d > 0 {
        lemma_div_pos_is_pos(x, d);
        lemma_div_nonincreasing(x, d);
        lemma_mod_division_less_than_divisor(x, d);
    } else if x < 0 && d < 0 {
        lemma_div_pos_is_pos(x * -1, d * -1);
        lemma_div_nonincreasing(x * -1, d * -1);
        lemma_mod_division_less_than_divisor(x * -1, d * -1);
    } else if x < 0 {
        lemma_div_pos_is_pos(x * -1, d);
        lemma_div_nonincreasing(x * -1, d);
        lemma_mod_division_less_than_divisor(x * -1, d);
    } else {
        lemma_div_pos_is_pos(x, d * -1);
        lemma_div_nonincreasing(x, d * -1);
        lemma_mod_division_less_than_divisor(x, d * -1);
    }
}

/// Holds exactly when `v` lies in the small-integer range.
pub open spec fn in_small_range(v: int) -> bool {
    MIN_VALUE <= v <= MAX_VALUE
}

/// The reserved and magnitude bit counts sum to the full word width, and the
/// range constants are exactly the bounds the magnitude field admits.
pub proof fn lemma_field_widths()
    ensures
        NUM_BITS + RESERVED_BITS == 64,
        MAX_VALUE == pow2(NUM_BITS as nat) - 1,
        MIN_VALUE == -(pow2(NUM_BITS as nat) as int),
{
    lemma2_to64_rest();
}

/// A signed integer slightly narrower than a machine word: 5 of the 64 bits
/// are reserved for the word's type tag and the sign flag.
#[derive(Clone, Copy, Debug, PartialEq, Eq, Structural, Hash)]
pub struct SmallInteger(pub i64);

impl SmallInteger {
    /// The value carried by this small integer.
    pub open spec fn value(self) -> int {
        self.0 as int
    }

    /// Invariant: the value lies in the small-integer range.
    pub open spec fn is_valid(self) -> bool {
        in_small_range(self.value())
    }

    /// Range-checked construction: succeeds exactly on values in
    /// `[MIN_VALUE, MAX_VALUE]`.
    pub fn new(i: i64) -> (r: Result<Self, TryFromIntError>)
        ensures
            in_small_range(i as int) <==> r is Ok,
            r matches Ok(s) ==> s.value() == i as int && s.is_valid(),
    {
        if i > MAX_VALUE || i < MIN_VALUE {
            return Err(TryFromIntError);
        }
        Ok(SmallInteger(i))
    }

    /// Construction whose range check is the caller's obligation; call sites
    /// must already have established that the value is in range.
    pub fn new_unchecked(i: i64) -> (r: Self)
        requires
            in_small_range(i as int),
        ensures
            r.value() == i as int,
            r.is_valid(),
    {
        SmallInteger(i)
    }

    /// Addition under the promotion protocol: the exact sum, boxed as `Big`
    /// only when it leaves the small range.
    pub fn add(self, rhs: SmallInteger) -> (r: Integer)
        requires
            self.is_valid(),
            rhs.is_valid(),
        ensures
            r.is_canonical(),
            r.value() == self.value() + rhs.value(),
    {
        Integer::from_native(self.0 + rhs.0)
    }

    /// Subtraction under the promotion protocol.
    pub fn sub(self, rhs: SmallInteger) -> (r: Integer)
        requires
            self.is_valid(),
            rhs.is_valid(),
        ensures
            r.is_canonical(),
            r.value() == self.value() - rhs.value(),
    {
        Integer::from_native(self.0 - rhs.0)
    }

    /// Negation under the promotion protocol.
    pub fn neg(self) -> (r: Integer)
        requires
            self.is_valid(),
        ensures
            r.is_canonical(),
            r.value() == -self.value(),
    {
        Integer::from_native(-self.0)
    }

    /// Multiplication under the promotion protocol: attempted at native width
    /// first; when the native width itself overflows, the true product is
    /// beyond the (narrower) small range, so the operands widen to arbitrary
    /// precision with no further range check.
    pub fn mul(self, rhs: SmallInteger) -> (r: Integer)
        requires
            self.is_valid(),
            rhs.is_valid(),
        ensures
            r.is_canonical(),
            r.value() == self.value() * rhs.value(),
    {
        match self.0.checked_mul(rhs.0) {
            Some(val) => Integer::from_native(val),
            None => {
                let lhs_big = big_from_i64(self.0);
                let rhs_big = big_from_i64(rhs.0);
                Integer::Big(BigInteger::new(big_mul(&lhs_big, &rhs_big)))
            },
        }
    }

    /// Truncating division under the promotion protocol; a zero divisor is a
    /// domain error, never a promotion.
    pub fn div(self, rhs: SmallInteger) -> (r: Result<Integer, ArithmeticError>)
        requires
            self.is_valid(),
            rhs.is_valid(),
        ensures
            rhs.value() == 0 <==> r is Err,
            r matches Err(e) ==> e == ArithmeticError::DivisionByZero,
            r matches Ok(q) ==> q.is_canonical() && q.value() == trunc_div(
                self.value(),
                rhs.value(),
            ),
    {
        if rhs.0 == 0 {
            return Err(ArithmeticError::DivisionByZero);
        }
        proof {
            lemma_trunc_div_rem_bounds(self.value(), rhs.value());
        }
        match self.0.checked_div(rhs.0) {
            Some(val) => Ok(Integer::from_native(val)),
            None => unreached(),
        }
    }

    /// Truncating remainder under the promotion protocol; a zero divisor is a
    /// domain error, never a promotion.
    pub fn rem(self, rhs: SmallInteger) -> (r: Result<Integer, ArithmeticError>)
        requires
            self.is_valid(),
            rhs.is_valid(),
        ensures
            rhs.value() == 0 <==> r is Err,
            r matches Err(e) ==> e == ArithmeticError::DivisionByZero,
            r matches Ok(m) ==> m.is_canonical() && m.value() == trunc_rem(
                self.value(),
                rhs.value(),
            ),
    {
        if rhs.0 == 0 {
            return Err(ArithmeticError::DivisionByZero);
        }
        proof {
            lemma_trunc_div_rem_bounds(self.value(), rhs.value());
        }
        match self.0.checked_rem(rhs.0) {
            Some(val) => Ok(Integer::from_native(val)),
            None => unreached(),
        }
    }

    /// Bitwise complement: the native bitwise NOT masked to the magnitude
    /// field, so the result is the complement within the field width — always
    /// back in the small range.
    pub fn not(self) -> (r: Integer)
        requires
            self.is_valid(),
        ensures
            r.is_canonical(),
            r matches Integer::Small(s) && s.value() == complement_value(self.value()),
    {
        let complement = !self.0 & MAX_VALUE;
        proof {
            let a = self.0;
            assert((!a & 0x07FF_FFFF_FFFF_FFFFi64) == if a >= 0 {
                0x07FF_FFFF_FFFF_FFFFi64 - a
            } else {
                -a - 1
            }) by (bit_vector)
                requires
                    -0x0800_0000_0000_0000i64 <= a <= 0x07FF_FFFF_FFFF_FFFFi64,
            ;
            if a >= 0 {
                lemma_fundamental_div_mod_converse_mod(
                    -a - 1,
                    0x0800_0000_0000_0000,
                    -1,
                    0x07FF_FFFF_FFFF_FFFF - a,
                );
            } else {
                lemma_fundamental_div_mod_converse_mod(-a - 1, 0x0800_0000_0000_0000, 0, -a - 1);
            }
        }
        Integer::Small(SmallInteger(complement))
    }

    /// Bitwise AND. Both operands fit the magnitude field, so the result does
    /// too: the protocol skips the overflow tiers entirely.
    pub fn bitand(self, rhs: SmallInteger) -> (r: Integer)
        requires
            self.is_valid(),
            rhs.is_valid(),
        ensures
            r.is_canonical(),
            r matches Integer::Small(s) && s.0 == (self.0 & rhs.0),
    {
        let a = self.0;
        let b = rhs.0;
        proof {
            assert(-0x0800_0000_0000_0000i64 <= (a & b) <= 0x07FF_FFFF_FFFF_FFFFi64)
                by (bit_vector)
                requires
                    -0x0800_0000_0000_0000i64 <= a <= 0x07FF_FFFF_FFFF_FFFFi64,
                    -0x0800_0000_0000_0000i64 <= b <= 0x07FF_FFFF_FFFF_FFFFi64,
            ;
        }
        Integer::Small(SmallInteger::new_unchecked(a & b))
    }

    /// Bitwise OR; never leaves the magnitude field, as for AND.
    pub fn bitor(self, rhs: SmallInteger) -> (r: Integer)
        requires
            self.is_valid(),
            rhs.is_valid(),
        ensures
            r.is_canonical(),
            r matches Integer::Small(s) && s.0 == (self.0 | rhs.0),
    {
        let a = self.0;
        let b = rhs.0;
        proof {
            assert(-0x0800_0000_0000_0000i64 <= (a | b) <= 0x07FF_FFFF_FFFF_FFFFi64)
                by (bit_vector)
                requires
                    -0x0800_0000_0000_0000i64 <= a <= 0x07FF_FFFF_FFFF_FFFFi64,
                    -0x0800_0000_0000_0000i64 <= b <= 0x07FF_FFFF_FFFF_FFFFi64,
            ;
        }
        Integer::Small(SmallInteger::new_unchecked(a | b))
    }

    /// Bitwise XOR; never leaves the magnitude field, as for AND.
    pub fn bitxor(self, rhs: SmallInteger) -> (r: Integer)
        requires
            self.is_valid(),
            rhs.is_valid(),
        ensures
            r.is_canonical(),
            r matches Integer::Small(s) && s.0 == (self.0 ^ rhs.0),
    {
        let a = self.0;
        let b = rhs.0;
        proof {
            assert(-0x0800_0000_0000_0000i64 <= (a ^ b) <= 0x07FF_FFFF_FFFF_FFFFi64)
                by (bit_vector)
                requires
                    -0x0800_0000_0000_0000i64 <= a <= 0x07FF_FFFF_FFFF_FFFFi64,
                    -0x0800_0000_0000_0000i64 <= b <= 0x07FF_FFFF_FFFF_FFFFi64,
            ;
        }
        Integer::Small(SmallInteger::new_unchecked(a ^ b))
    }
}

/// The value of a small integer's bitwise complement: the complement taken
/// within the magnitude field, that is reduced modulo 2^59.
pub open spec fn complement_value(v: int) -> int {
    (-v - 1) % 0x0800_0000_0000_0000
}

/// 2^s at native width, for shift amounts that stay within the magnitude
/// field.
fn pow2_i64(s: u64) -> (p: i64)
    requires
        s <= 59,
    ensures
        p as int == pow2(s as nat),
{
    let mut p: i64 = 1;
    let mut i: u64 = 0;
    proof {
        lemma2_to64();
    }
    while i < s
        invariant
            i <= s,
            s <= 59,
            p as int == pow2(i as nat),
        decreases s - i,
    {
        proof {
            lemma_pow2_strictly_increases(i as nat, 59);
            lemma2_to64();
            lemma2_to64_rest();
            lemma_pow2_unfold((i + 1) as nat);
        }
        p = p * 2;
        i = i + 1;
    }
    p
}

impl SmallInteger {
    /// Left shift under the promotion protocol: an exact multiplication by
    /// 2^rhs. A shift amount past the magnitude field can only leave the small
    /// range (unless the operand is zero), so it widens to arbitrary precision
    /// directly.
    pub fn shl(self, rhs: u64) -> (r: Integer)
        requires
            self.is_valid(),
        ensures
            r.is_canonical(),
            r.value() == self.value() * pow2(rhs as nat),
    {
        proof {
            lemma_pow2_pos(rhs as nat);
        }
        if self.0 == 0 {
            proof {
                assert(self.value() * pow2(rhs as nat) == 0) by (nonlinear_arith)
                    requires
                        self.value() == 0,
                ;
            }
            Integer::Small(SmallInteger(0))
        } else if rhs >= 60 {
            let shifted = big_shl(&big_from_i64(self.0), rhs);
            proof {
                lemma2_to64();
                lemma2_to64_rest();
                if rhs > 60 {
                    lemma_pow2_strictly_increases(60, rhs as nat);
                }
                if self.0 >= 1 {
                    lemma_mul_inequality(1, self.value(), pow2(rhs as nat) as int);
                } else {
                    lemma_mul_inequality(self.value(), -1, pow2(rhs as nat) as int);
                }
            }
            Integer::Big(BigInteger::new(shifted))
        } else {
            let p = pow2_i64(rhs);
            let a128 = self.0 as i128;
            let p128 = p as i128;
            proof {
                lemma2_to64();
                lemma2_to64_rest();
                lemma_pow2_strictly_increases(rhs as nat, 60);
                assert((a128 as int) * (p128 as int) <= 0x0800_0000_0000_0000
                    * 0x1000_0000_0000_0000 && -0x0800_0000_0000_0000 * 0x1000_0000_0000_0000 <= (
                a128 as int) * (p128 as int)) by (nonlinear_arith)
                    requires
                        -0x0800_0000_0000_0000 <= a128 as int <= 0x07FF_FFFF_FFFF_FFFF,
                        0 < p128 as int <= 0x1000_0000_0000_0000,
                ;
            }
            let prod = a128 * p128;
            proof {
                assert(a128 as int == self.value());
                assert(p128 as int == pow2(rhs as nat));
                assert(prod as int == self.value() * (pow2(rhs as nat) as int))
                    by (nonlinear_arith)
                    requires
                        prod as int == (a128 as int) * (p128 as int),
                        a128 as int == self.value(),
                        p128 as int == pow2(rhs as nat) as int,
                ;
            }
            if -0x0800_0000_0000_0000i128 <= prod && prod <= 0x07FF_FFFF_FFFF_FFFFi128 {
                Integer::Small(SmallInteger(prod as i64))
            } else {
                let shifted = big_shl(&big_from_i64(self.0), rhs);
                Integer::Big(BigInteger::new(shifted))
            }
        }
    }

    /// Arithmetic right shift under the promotion protocol: an exact flooring
    /// division by 2^rhs, which can never leave the small range.
    pub fn shr(self, rhs: u64) -> (r: Integer)
        requires
            self.is_valid(),
        ensures
            r.is_canonical(),
            r.value() == self.value() / (pow2(rhs as nat) as int),
    {
        proof {
            lemma_pow2_pos(rhs as nat);
        }
        if rhs >= 60 {
            proof {
                lemma2_to64();
                lemma2_to64_rest();
                if rhs > 60 {
                    lemma_pow2_strictly_increases(60, rhs as nat);
                }
                let d = pow2(rhs as nat) as int;
                if self.value() >= 0 {
                    lemma_basic_div(self.value(), d);
                } else {
                    lemma_fundamental_div_mod_converse(self.value(), d, -1, self.value() + d);
                }
            }
            if self.0 >= 0 {
                Integer::Small(SmallInteger(0))
            } else {
                Integer::Small(SmallInteger(-1))
            }
        } else {
            let p = pow2_i64(rhs);
            if self.0 >= 0 {
                let q = (self.0 as u64) / (p as u64);
                proof {
                    lemma_div_nonincreasing(self.value(), p as int);
                    lemma_div_pos_is_pos(self.value(), p as int);
                }
                Integer::Small(SmallInteger(q as i64))
            } else {
                let m = (-self.0) as u64;
                let q0 = m / (p as u64);
                let r0 = m % (p as u64);
                proof {
                    let mi = m as int;
                    let pi = p as int;
                    let qi = q0 as int;
                    let ri = r0 as int;
                    lemma_fundamental_div_mod(mi, pi);
                    lemma_mod_division_less_than_divisor(mi, pi);
                    lemma_div_pos_is_pos(mi, pi);
                    lemma_div_nonincreasing(mi, pi);
                    assert(mi == pi * qi + ri);
                    if r0 == 0 {
                        assert(-mi == (-qi) * pi + 0) by (nonlinear_arith)
                            requires
                                mi == pi * qi + ri,
                                ri == 0,
                        ;
                        lemma_fundamental_div_mod_converse(self.value(), pi, -qi, 0);
                    } else {
                        assert(-mi == (-qi - 1) * pi + (pi - ri)) by (nonlinear_arith)
                            requires
                                mi == pi * qi + ri,
                        ;
                        lemma_fundamental_div_mod_converse(self.value(), pi, -qi - 1, pi - ri);
                    }
                }
                if r0 == 0 {
                    Integer::from_native(-(q0 as i64))
                } else {
                    Integer::from_native(-(q0 as i64) - 1)
                }
            }
        }
    }
}

} // verus!
