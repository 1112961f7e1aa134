//! Conversions into the small-integer type from the fixed-width native types:
//! sources narrow enough never to leave the small range convert infallibly;
//! wider sources convert fallibly with a range check. Widening a small integer
//! to arbitrary precision is always infallible.

use vstd::prelude::*;

use crate::big::{big_from_i64, BigInteger};
use crate::small::{in_small_range, SmallInteger, TryFromIntError, MAX_VALUE};

verus! {

impl From<u8> for SmallInteger {
    /// An 8-bit unsigned value always fits the small range.
    fn from(n: u8) -> (r: SmallInteger) {
        SmallInteger(n as i64)
    }
}

impl vstd::std_specs::convert::FromSpecImpl<u8> for SmallInteger {
    open spec fn obeys_from_spec() -> bool {
        true
    }

    open spec fn from_spec(n: u8) -> SmallInteger {
        SmallInteger(n as i64)
    }
}

impl From<u16> for SmallInteger {
    /// A 16-bit unsigned value always fits the small range.
    fn from(n: u16) -> (r: SmallInteger) {
        SmallInteger(n as i64)
    }
}

impl vstd::std_specs::convert::FromSpecImpl<u16> for SmallInteger {
    open spec fn obeys_from_spec() -> bool {
        true
    }

    open spec fn from_spec(n: u16) -> SmallInteger {
        SmallInteger(n as i64)
    }
}

impl From<u32> for SmallInteger {
    /// A 32-bit unsigned value always fits the small range.
    fn from(n: u32) -> (r: SmallInteger) {
        SmallInteger(n as i64)
    }
}

impl vstd::std_specs::convert::FromSpecImpl<u32> for SmallInteger {
    open spec fn obeys_from_spec() -> bool {
        true
    }

    open spec fn from_spec(n: u32) -> SmallInteger {
        SmallInteger(n as i64)
    }
}

impl From<i8> for SmallInteger {
    /// An 8-bit signed value always fits the small range.
    fn from(n: i8) -> (r: SmallInteger) {
        SmallInteger(n as i64)
    }
}

impl vstd::std_specs::convert::FromSpecImpl<i8> for SmallInteger {
    open spec fn obeys_from_spec() -> bool {
        true
    }

    open spec fn from_spec(n: i8) -> SmallInteger {
        SmallInteger(n as i64)
    }
}

impl From<i16> for SmallInteger {
    /// A 16-bit signed value always fits the small range.
    fn from(n: i16) -> (r: SmallInteger) {
        SmallInteger(n as i64)
    }
}

impl vstd::std_specs::convert::FromSpecImpl<i16> for SmallInteger {
    open spec fn obeys_from_spec() -> bool {
        true
    }

    open spec fn from_spec(n: i16) -> SmallInteger {
        SmallInteger(n as i64)
    }
}

impl From<i32> for SmallInteger {
    /// A 32-bit signed value always fits the small range.
    fn from(n: i32) -> (r: SmallInteger) {
        SmallInteger(n as i64)
    }
}

impl vstd::std_specs::convert::FromSpecImpl<i32> for SmallInteger {
    open spec fn obeys_from_spec() -> bool {
        true
    }

    open spec fn from_spec(n: i32) -> SmallInteger {
        SmallInteger(n as i64)
    }
}

impl SmallInteger {
    /// Fallible conversion from an unsigned native value: succeeds exactly when
    /// it does not exceed the largest small integer.
    pub fn try_from_u64(n: u64) -> (r: Result<SmallInteger, TryFromIntError>)
        ensures
            n as int <= MAX_VALUE <==> r is Ok,
            r matches Ok(s) ==> s.value() == n as int && s.is_valid(),
    {
        if n > 0x07FF_FFFF_FFFF_FFFFu64 {
            return Err(TryFromIntError);
        }
        Ok(SmallInteger(n as i64))
    }

    /// Infallible widening into the arbitrary-precision representation.
    pub fn to_big(&self) -> (b: BigInteger)
        ensures
            b.v() == self.value(),
    {
        BigInteger::new(big_from_i64(self.0))
    }
}

} // verus!
