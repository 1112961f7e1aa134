//! The cross-type comparison protocol: numeric equality and ordering across
//! the tower's representations without forcing a common one, and the slice of
//! the generic term order that numbers must rank against — every number ranks
//! before every tuple; tuples rank by arity first, then element-wise.

use core::cmp::Ordering;

use vstd::prelude::*;

use crate::big::{big_cmp, big_from_i64, BigInteger};
use crate::integer::Integer;
use crate::small::SmallInteger;

verus! {

impl SmallInteger {
    /// Equality against a big integer: the small value widens losslessly and
    /// the arbitrary-precision comparator decides.
    pub fn eq_big(&self, other: &BigInteger) -> (r: bool)
        ensures
            r == (self.value() == other.v()),
    {
        let lhs = big_from_i64(self.0);
        matches!(big_cmp(&lhs, &other.value), Ordering::Equal)
    }

    /// Ordering against a big integer: by the mathematical values; always a
    /// total order, so the result is never `None`.
    pub fn partial_cmp_big(&self, other: &BigInteger) -> (r: Option<Ordering>)
        ensures
            r matches Some(o) && (o == Ordering::Less <==> self.value() < other.v()) && (o
                == Ordering::Equal <==> self.value() == other.v()) && (o == Ordering::Greater <==>
            self.value() > other.v()),
    {
        let lhs = big_from_i64(self.0);
        Some(big_cmp(&lhs, &other.value))
    }

    /// Equality against an unsigned native value.
    pub fn eq_u64(&self, other: u64) -> (r: bool)
        ensures
            r == (self.value() == other as int),
    {
        if self.0 < 0 {
            return false;
        }
        (self.0 as u64) == other
    }

    /// Equality against a signed native value.
    pub fn eq_i64(&self, other: i64) -> (r: bool)
        ensures
            r == (self.value() == other as int),
    {
        self.0 == other
    }
}

/// Ordering of two integers of the tower by the mathematical values they
/// carry, whichever representations hold them.
pub fn integer_cmp(a: &Integer, b: &Integer) -> (r: Ordering)
    ensures
        r == Ordering::Less <==> a.value() < b.value(),
        r == Ordering::Equal <==> a.value() == b.value(),
        r == Ordering::Greater <==> a.value() > b.value(),
{
    match (a, b) {
        (Integer::Small(x), Integer::Small(y)) => {
            if x.0 < y.0 {
                Ordering::Less
            } else if x.0 == y.0 {
                Ordering::Equal
            } else {
                Ordering::Greater
            }
        },
        (Integer::Small(x), Integer::Big(y)) => {
            let lhs = big_from_i64(x.0);
            big_cmp(&lhs, &y.value)
        },
        (Integer::Big(x), Integer::Small(y)) => {
            let rhs = big_from_i64(y.0);
            big_cmp(&x.value, &rhs)
        },
        (Integer::Big(x), Integer::Big(y)) => big_cmp(&x.value, &y.value),
    }
}

/// The term kinds the numeric core ranks against: numbers and tuples of
/// numbers.
#[derive(Debug)]
pub enum Term {
    Number(Integer),
    Tuple(Vec<Integer>),
}

/// The mathematical values of a tuple's elements.
pub open spec fn tuple_values(elements: Seq<Integer>) -> Seq<int> {
    elements.map(|i: int, e: Integer| e.value())
}

/// The first `n` elements of `a` and `b` agree.
pub open spec fn prefix_eq(a: Seq<int>, b: Seq<int>, n: int) -> bool {
    forall|j: int| 0 <= j < n ==> a[j] == b[j]
}

/// Lexicographic order of two equal-length tuples' values: some position
/// decides, all earlier positions agreeing.
pub open spec fn lex_less(a: Seq<int>, b: Seq<int>) -> bool {
    exists|i: int| 0 <= i < a.len() && #[trigger] a[i] < b[i] && prefix_eq(a, b, i)
}

/// Tuple order: by arity first, then element-wise from the first position.
pub open spec fn tuple_ge(a: Seq<int>, b: Seq<int>) -> bool {
    a.len() > b.len() || (a.len() == b.len() && !lex_less(a, b))
}

/// The at-or-above relation of the term order, restricted to the kinds this
/// core models.
pub open spec fn term_ge(l: Term, r: Term) -> bool {
    match (l, r) {
        (Term::Number(a), Term::Number(b)) => a.value() >= b.value(),
        (Term::Number(_), Term::Tuple(_)) => false,
        (Term::Tuple(_), Term::Number(_)) => true,
        (Term::Tuple(x), Term::Tuple(y)) => tuple_ge(tuple_values(x@), tuple_values(y@)),
    }
}

/// Whether `left` ranks at or above `right` in the term order.
#[verifier::loop_isolation(false)]
pub fn is_greater_than_or_equal(left: &Term, right: &Term) -> (r: bool)
    ensures
        r == term_ge(*left, *right),
{
    match (left, right) {
        (Term::Number(a), Term::Number(b)) => !matches!(integer_cmp(a, b), Ordering::Less),
        (Term::Number(_), Term::Tuple(_)) => false,
        (Term::Tuple(_), Term::Number(_)) => true,
        (Term::Tuple(x), Term::Tuple(y)) => {
            let ghost va = tuple_values(x@);
            let ghost vb = tuple_values(y@);
            proof {
                assert(va.len() == x@.len());
                assert(vb.len() == y@.len());
            }
            let n = x.len();
            if n != y.len() {
                return n > y.len();
            }
            let mut i: usize = 0;
            while i < n
                invariant
                    i <= n,
                    n == x@.len(),
                    n == y@.len(),
                    va == tuple_values(x@),
                    vb == tuple_values(y@),
                    prefix_eq(va, vb, i as int),
                decreases n - i,
            {
                proof {
                    assert(va[i as int] == x@[i as int].value());
                    assert(vb[i as int] == y@[i as int].value());
                }
                match integer_cmp(&x[i], &y[i]) {
                    Ordering::Less => {
                        proof {
                            assert(va[i as int] < vb[i as int]);
                            assert(lex_less(va, vb));
                        }
                        return false;
                    },
                    Ordering::Greater => {
                        proof {
                            assert(va[i as int] > vb[i as int]);
                            if lex_less(va, vb) {
                                let k = choose|k: int|
                                    0 <= k < va.len() && #[trigger] va[k] < vb[k] && prefix_eq(
                                        va,
                                        vb,
                                        k,
                                    );
                                if k < i as int {
                                    assert(va[k] == vb[k]);
                                } else {
                                    assert(va[i as int] == vb[i as int]);
                                }
                                assert(false);
                            }
                        }
                        return true;
                    },
                    Ordering::Equal => {
                        i = i + 1;
                    },
                }
            }
            proof {
                if lex_less(va, vb) {
                    let k = choose|k: int|
                        0 <= k < va.len() && #[trigger] va[k] < vb[k] && prefix_eq(va, vb, k);
                    assert(va[k] == vb[k]);
                    assert(false);
                }
            }
            true
        },
    }
}

} // verus!
