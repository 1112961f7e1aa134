//! The numeric tower's result type: every integer-producing operation returns
//! an `Integer`, which keeps each mathematical value in its canonical,
//! size-appropriate representation — `Small` exactly when the value fits the
//! immediate range, `Big` otherwise.

use vstd::prelude::*;
use vstd::arithmetic::mul::{lemma_mul_is_associative, lemma_mul_is_commutative};
use vstd::std_specs::cmp::PartialEqSpec;

use crate::big::{big_cmp, big_from_i64, BigInteger};
use crate::small::{in_small_range, SmallInteger, MAX_VALUE, MIN_VALUE};

verus! {

/// A two-variant integer value: immediate or heap-boxed arbitrary precision.
#[derive(Debug)]
pub enum Integer {
    Small(SmallInteger),
    Big(BigInteger),
}

impl Integer {
    /// The mathematical value this integer carries, whichever variant holds it.
    pub open spec fn value(self) -> int {
        match self {
            Integer::Small(s) => s.value(),
            Integer::Big(b) => b.v(),
        }
    }

    /// Canonicalization invariant: for a given mathematical value exactly one
    /// variant is valid — `Small` when the value is in the immediate range,
    /// `Big` only when it is not.
    pub open spec fn is_canonical(self) -> bool {
        match self {
            Integer::Small(s) => s.is_valid(),
            Integer::Big(b) => !in_small_range(b.v()),
        }
    }

    /// Boxes a native value in its canonical representation.
    pub fn from_native(val: i64) -> (r: Integer)
        ensures
            r.is_canonical(),
            r.value() == val as int,
    {
        if MIN_VALUE <= val && val <= MAX_VALUE {
            Integer::Small(SmallInteger(val))
        } else {
            Integer::Big(BigInteger::new(big_from_i64(val)))
        }
    }
}

/// A canonical integer's variant is decided by its value alone: it is `Small`
/// exactly when the value lies in the immediate range, and never `Big` for an
/// in-range value.
pub proof fn lemma_canonical_variant(i: Integer)
    requires
        i.is_canonical(),
    ensures
        (i matches Integer::Small(_)) <==> in_small_range(i.value()),
        (i matches Integer::Big(_)) <==> !in_small_range(i.value()),
{
}

/// Equal-valued canonical integers are equal as far as the tower can tell:
/// they hold the same variant, and their contents compare equal.
pub proof fn lemma_canonical_value_equality(x: Integer, y: Integer)
    requires
        x.is_canonical(),
        y.is_canonical(),
        x.value() == y.value(),
    ensures
        x.eq_spec(&y),
{
}

/// Commutativity of the operator protocol: addition and multiplication results
/// are the same whichever order the operands come in — any canonical results
/// of the two orders compare equal.
pub proof fn lemma_operator_commutative(
    a: SmallInteger,
    b: SmallInteger,
    r_ab: Integer,
    r_ba: Integer,
)
    requires
        r_ab.is_canonical(),
        r_ba.is_canonical(),
        (r_ab.value() == a.value() + b.value() && r_ba.value() == b.value() + a.value()) || (
        r_ab.value() == a.value() * b.value() && r_ba.value() == b.value() * a.value()),
    ensures
        r_ab.eq_spec(&r_ba),
{
    lemma_mul_is_commutative(a.value(), b.value());
    lemma_canonical_value_equality(r_ab, r_ba);
}

/// Associativity of the operator protocol: addition and multiplication results
/// are the same whichever way three operands are grouped — any canonical
/// results of the two groupings compare equal.
pub proof fn lemma_operator_associative(
    a: SmallInteger,
    b: SmallInteger,
    c: SmallInteger,
    r_left: Integer,
    r_right: Integer,
)
    requires
        r_left.is_canonical(),
        r_right.is_canonical(),
        (r_left.value() == (a.value() + b.value()) + c.value() && r_right.value() == a.value() + (
        b.value() + c.value())) || (r_left.value() == (a.value() * b.value()) * c.value()
            && r_right.value() == a.value() * (b.value() * c.value())),
    ensures
        r_left.eq_spec(&r_right),
{
    lemma_mul_is_associative(a.value(), b.value(), c.value());
    lemma_canonical_value_equality(r_left, r_right);
}

impl PartialEq for Integer {
    /// Numeric equality of canonical integers: values of the same variant
    /// compare by the mathematical value they carry; a canonical `Small` never
    /// equals a canonical `Big`.
    fn eq(&self, other: &Integer) -> (r: bool) {
        match (self, other) {
            (Integer::Small(a), Integer::Small(b)) => a.0 == b.0,
            (Integer::Big(a), Integer::Big(b)) => {
                matches!(big_cmp(&a.value, &b.value), core::cmp::Ordering::Equal)
            },
            _ => false,
        }
    }
}

impl vstd::std_specs::cmp::PartialEqSpecImpl for Integer {
    open spec fn obeys_eq_spec() -> bool {
        true
    }

    open spec fn eq_spec(&self, other: &Integer) -> bool {
        match (*self, *other) {
            (Integer::Small(a), Integer::Small(b)) => a.value() == b.value(),
            (Integer::Big(a), Integer::Big(b)) => a.v() == b.v(),
            _ => false,
        }
    }
}

} // verus!
