//! The computational core of the time-offset builtin: the difference between a
//! system clock reading and a monotonic clock reading, boxed canonically.
//! Reading the clocks stays with the caller; this core only decides the
//! representation of the result.

use vstd::prelude::*;

use crate::big::{big_from_i128, BigInteger};
use crate::integer::Integer;
use crate::small::SmallInteger;

verus! {

/// The offset between the two clocks, as a canonical integer: the difference
/// can leave the native width, in which case it widens to arbitrary precision.
pub fn native(system_time: i64, monotonic_time: i64) -> (r: Integer)
    ensures
        r.is_canonical(),
        r.value() == system_time - monotonic_time,
{
    let diff = (system_time as i128) - (monotonic_time as i128);
    if -0x0800_0000_0000_0000i128 <= diff && diff <= 0x07FF_FFFF_FFFF_FFFFi128 {
        Integer::Small(SmallInteger(diff as i64))
    } else {
        Integer::Big(BigInteger::new(big_from_i128(diff)))
    }
}

} // verus!
