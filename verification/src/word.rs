//! The word tag scheme: how a machine word's low bits distinguish an immediate
//! small integer from the other term kinds, and how a small integer's sign and
//! magnitude are packed into the remaining bits.
//!
//! Layout, low bits first: a 4-bit type tag, one sign-flag bit, and a 59-bit
//! magnitude field. Decoding is only defined on a word the caller's tag
//! dispatch has already established to carry the small-integer tag.

use vstd::prelude::*;
use vstd::arithmetic::div_mod::{
    lemma_div_denominator, lemma_div_is_ordered, lemma_fundamental_div_mod_converse,
};

use crate::small::{in_small_range, SmallInteger, MAX_VALUE, MIN_VALUE};

verus! {

/// The tag value that identifies an immediate small integer among the word's
/// term kinds.
pub const FLAG_SMALL_INTEGER: u64 = 0x1;

/// The type tag of a word: its low four bits.
pub open spec fn word_tag(w: int) -> int {
    w % 16
}

/// The sign flag of a small-integer word: the bit just above the tag.
pub open spec fn word_sign(w: int) -> int {
    (w / 16) % 2
}

/// The magnitude field of a small-integer word: the bits above tag and sign.
pub open spec fn word_magnitude(w: int) -> int {
    w / 32
}

/// Whether a word carries the small-integer tag.
pub open spec fn is_small_integer_word(w: int) -> bool {
    word_tag(w) == FLAG_SMALL_INTEGER
}

/// The value a small-integer word carries: its magnitude, negated when the
/// sign flag is set.
pub open spec fn small_word_value(w: int) -> int {
    if word_sign(w) == 1 {
        -word_magnitude(w)
    } else {
        word_magnitude(w)
    }
}

/// The word that encodes a small-integer value: a non-negative value has its
/// magnitude tagged directly; a negative value has its absolute value tagged
/// with the sign flag set.
pub open spec fn encode_spec(v: int) -> int {
    if v >= 0 {
        v * 32 + FLAG_SMALL_INTEGER
    } else {
        (-v) * 32 + 16 + FLAG_SMALL_INTEGER
    }
}

/// Round trip of the tag scheme: every value whose magnitude fits the
/// magnitude field — all of the small range but its lowest value, whose
/// absolute value is one past the field — decodes from its own encoding.
pub proof fn lemma_round_trip(v: int)
    requires
        MIN_VALUE < v <= MAX_VALUE,
    ensures
        0 <= encode_spec(v) <= u64::MAX,
        is_small_integer_word(encode_spec(v)),
        small_word_value(encode_spec(v)) == v,
{
    if v >= 0 {
        let w = v * 32 + 1;
        lemma_fundamental_div_mod_converse(w, 16, 2 * v, 1);
        lemma_fundamental_div_mod_converse(2 * v, 2, v, 0);
        lemma_div_denominator(w, 16, 2);
    } else {
        let w = (-v) * 32 + 17;
        lemma_fundamental_div_mod_converse(w, 16, 2 * (-v) + 1, 1);
        lemma_fundamental_div_mod_converse(2 * (-v) + 1, 2, -v, 1);
        lemma_div_denominator(w, 16, 2);
    }
}

impl SmallInteger {
    /// Present this small integer as a tagged machine word. The lowest value
    /// of the range is excluded: its absolute value does not fit the
    /// magnitude field.
    pub fn as_term(&self) -> (w: u64)
        requires
            self.is_valid(),
            self.value() != MIN_VALUE,
        ensures
            w as int == encode_spec(self.value()),
            is_small_integer_word(w as int),
            small_word_value(w as int) == self.value(),
    {
        proof {
            lemma_round_trip(self.value());
        }
        if self.0 >= 0 {
            (self.0 as u64) * 32 + FLAG_SMALL_INTEGER
        } else {
            ((-self.0) as u64) * 32 + 16 + FLAG_SMALL_INTEGER
        }
    }

    /// Recover the small integer carried by a word that the caller's tag
    /// dispatch has already established to be tagged as a small integer.
    pub fn from_untagged_term(w: u64) -> (r: SmallInteger)
        requires
            is_small_integer_word(w as int),
        ensures
            r.value() == small_word_value(w as int),
            r.is_valid(),
    {
        let magnitude = w / 32;
        let sign_set = (w / 16) % 2 == 1;
        proof {
            lemma_div_is_ordered(w as int, u64::MAX as int, 32);
            assert(in_small_range(w as int / 32));
        }
        if sign_set {
            SmallInteger(-(magnitude as i64))
        } else {
            SmallInteger(magnitude as i64)
        }
    }
}

} // verus!
