//! The arbitrary-precision side of the numeric tower. The heavy lifting is done
//! by `num_bigint::BigInt`; each operation the tower needs is reached through a
//! trusted wrapper whose contract speaks of the mathematical value the big
//! integer carries.

use vstd::prelude::*;
use vstd::arithmetic::power2::pow2;

verus! {

#[verifier::external_type_specification]
#[verifier::external_body]
pub struct ExBigInt(num_bigint::BigInt);

/// The mathematical integer that a `num_bigint::BigInt` carries.
pub uninterp spec fn big_value(b: num_bigint::BigInt) -> int;

/// Relies on `impl From<i64> for num_bigint::BigInt`: lossless widening of a
/// native value to arbitrary precision.
#[verifier::external_body]
pub fn big_from_i64(i: i64) -> (b: num_bigint::BigInt)
    ensures
        big_value(b) == i as int,
{
    num_bigint::BigInt::from(i)
}

/// Relies on `impl From<i128> for num_bigint::BigInt`: lossless widening of a
/// double-width native value to arbitrary precision.
#[verifier::external_body]
pub fn big_from_i128(i: i128) -> (b: num_bigint::BigInt)
    ensures
        big_value(b) == i as int,
{
    num_bigint::BigInt::from(i)
}

/// Relies on `impl Mul for &num_bigint::BigInt`: the exact product of two
/// unbounded integers.
#[verifier::external_body]
pub fn big_mul(a: &num_bigint::BigInt, b: &num_bigint::BigInt) -> (r: num_bigint::BigInt)
    ensures
        big_value(r) == big_value(*a) * big_value(*b),
{
    a * b
}

/// Relies on `impl Shl<u64> for &num_bigint::BigInt`: a left shift of an
/// unbounded integer is an exact multiplication by a power of two.
#[verifier::external_body]
pub fn big_shl(a: &num_bigint::BigInt, s: u64) -> (r: num_bigint::BigInt)
    ensures
        big_value(r) == big_value(*a) * pow2(s as nat),
{
    a << s
}

/// Relies on `impl Ord for num_bigint::BigInt`: `cmp` is the total order of the
/// mathematical values.
#[verifier::external_body]
pub fn big_cmp(a: &num_bigint::BigInt, b: &num_bigint::BigInt) -> (r: core::cmp::Ordering)
    ensures
        r == core::cmp::Ordering::Less <==> big_value(*a) < big_value(*b),
        r == core::cmp::Ordering::Equal <==> big_value(*a) == big_value(*b),
        r == core::cmp::Ordering::Greater <==> big_value(*a) > big_value(*b),
{
    a.cmp(b)
}

/// A heap-boxed arbitrary-precision integer, the `Big` half of the numeric
/// tower's result type.
#[derive(Debug)]
pub struct BigInteger {
    pub value: num_bigint::BigInt,
}

impl BigInteger {
    /// The mathematical value this big integer carries.
    pub open spec fn v(&self) -> int {
        big_value(self.value)
    }

    /// Boxes an arbitrary-precision value.
    pub fn new(value: num_bigint::BigInt) -> (r: BigInteger)
        ensures
            r.v() == big_value(value),
    {
        BigInteger { value }
    }
}

} // verus!
