//! Numeric-tower core of a term-based runtime: immediate small integers with a
//! tagged-word encoding, promotion to arbitrary-precision big integers, and the
//! cross-type comparison protocol between the two.

pub mod big;
pub mod compare;
pub mod convert;
pub mod integer;
pub mod small;
pub mod time_offset_0;
pub mod word;

pub use big::BigInteger;
pub use compare::{is_greater_than_or_equal, Term};
pub use integer::Integer;
pub use small::{ArithmeticError, SmallInteger, TryFromIntError};
