//! Prices as exact fixed-point values, and the decimal grammar that the
//! poll cycle accepts for the quote fields.
//!
//! A quote arrives with its numeric fields rendered as decimal strings.  The
//! cycle must accept a field only when it is a finite, non-negative decimal
//! number, and must store it without precision loss.  A [`Price`] therefore
//! holds a whole number of hundred-millionths (eight decimal places); a field
//! is accepted when it consists of one to eleven integer digits, optionally
//! followed by a dot and at most eight fraction digits.

use vstd::prelude::*;

use crate::digits::{
    all_digits, digits_val, digits_value, lemma_digits_val_bound, lemma_pow10_adds,
    lemma_pow10_monotone, lemma_pow10_values, pow10, pow10_u64,
};

verus! {

/// How many `units` make one whole currency unit: a price has eight decimal
/// places.
pub const PRICE_SCALE: u64 = 100_000_000;

/// A non-negative fixed-point price: `units` hundred-millionths.
#[derive(Clone, Copy, PartialEq, Eq, Structural, Debug)]
pub struct Price {
    pub units: u64,
}

/// The index of the first `'.'` in `s`, or `s.len()` if there is none.
pub open spec fn dot_index(s: Seq<char>) -> int
    decreases s.len(),
{
    if s.len() == 0 {
        0
    } else if s[0] == '.' {
        0
    } else {
        1 + dot_index(s.subrange(1, s.len() as int))
    }
}

/// The digits before the first dot (the whole string when there is no dot).
pub open spec fn int_digits(s: Seq<char>) -> Seq<char> {
    s.subrange(0, dot_index(s))
}

/// The digits after the first dot, empty when there is no dot.
pub open spec fn frac_digits(s: Seq<char>) -> Seq<char> {
    if dot_index(s) == s.len() {
        Seq::empty()
    } else {
        s.subrange(dot_index(s) + 1, s.len() as int)
    }
}

/// The grammar of an accepted price field: one to eleven integer digits,
/// then optionally a dot and at most eight fraction digits.
pub open spec fn valid_price_string(s: Seq<char>) -> bool {
    &&& 1 <= int_digits(s).len() <= 11
    &&& all_digits(int_digits(s))
    &&& frac_digits(s).len() <= 8
    &&& all_digits(frac_digits(s))
}

/// The value of a valid price string, in `units` of one hundred-millionth.
pub open spec fn price_units(s: Seq<char>) -> int {
    digits_val(int_digits(s)) * PRICE_SCALE + digits_val(frac_digits(s)) * pow10(
        (8 - frac_digits(s).len()) as nat,
    )
}

/// `dot_index` points at the first dot: everything before it is not a dot,
/// and it is a dot unless the string has none.
pub proof fn lemma_dot_index_char(s: Seq<char>)
    ensures
        0 <= dot_index(s) <= s.len(),
        forall|j: int| 0 <= j < dot_index(s) ==> s[j] != '.',
        dot_index(s) < s.len() ==> s[dot_index(s)] == '.',
    decreases s.len(),
{
    if s.len() == 0 {
    } else if s[0] == '.' {
    } else {
        let rest = s.subrange(1, s.len() as int);
        lemma_dot_index_char(rest);
        assert forall|j: int| 0 <= j < dot_index(s) implies s[j] != '.' by {
            if j >= 1 {
                assert(rest[j - 1] == s[j]);
            }
        }
        if dot_index(s) < s.len() {
            assert(s[dot_index(s)] == rest[dot_index(rest)]);
        }
    }
}

/// Finds the index of the first dot in `s`, or its length if there is none.
fn find_dot(s: &str) -> (r: usize)
    ensures
        r == dot_index(s@),
{
    let n = s.unicode_len();
    let mut i: usize = 0;
    while i < n
        invariant
            i <= n,
            n == s@.len(),
            forall|j: int| 0 <= j < i ==> s@[j] != '.',
        decreases n - i,
    {
        let c = s.get_char(i);
        if c == '.' {
            proof {
                lemma_dot_index_char(s@);
                if dot_index(s@) < i {
                    assert(s@[dot_index(s@)] != '.');
                }
            }
            return i;
        }
        i += 1;
    }
    proof {
        lemma_dot_index_char(s@);
        if dot_index(s@) < n {
            assert(s@[dot_index(s@)] != '.');
        }
    }
    n
}

/// Parses a quote field as a price.
///
/// Returns `Some` exactly when the field matches the accepted decimal
/// grammar, and then the parsed price holds the denoted value without loss:
/// the integer digits scaled by [`PRICE_SCALE`] plus the fraction digits
/// padded to eight places.
pub fn parse_price(s: &str) -> (r: Option<Price>)
    ensures
        r is Some <==> valid_price_string(s@),
        r is Some ==> r->0.units == price_units(s@),
{
    let n = s.unicode_len();
    let dot = find_dot(s);
    proof {
        lemma_dot_index_char(s@);
        assert(int_digits(s@).len() == dot);
    }
    if dot < 1 || dot > 11 {
        return None;
    }
    let (frac_from, frac_len): (usize, usize) = if dot == n {
        (n, 0)
    } else {
        (dot + 1, n - dot - 1)
    };
    proof {
        assert(frac_digits(s@).len() == frac_len);
        assert(s@.subrange(frac_from as int, n as int) =~= frac_digits(s@));
    }
    if frac_len > 8 {
        return None;
    }
    let iv = match digits_value(s, 0, dot) {
        Some(v) => v,
        None => {
            proof {
                assert(s@.subrange(0, dot as int) =~= int_digits(s@));
            }
            return None;
        },
    };
    let fv = match digits_value(s, frac_from, n) {
        Some(v) => v,
        None => {
            return None;
        },
    };
    proof {
        assert(s@.subrange(0, dot as int) =~= int_digits(s@));
        lemma_digits_val_bound(int_digits(s@));
        lemma_digits_val_bound(frac_digits(s@));
        lemma_pow10_monotone(dot as nat, 11);
        lemma_pow10_adds(frac_len as nat, (8 - frac_len) as nat);
        lemma_pow10_monotone((8 - frac_len) as nat, 8);
        lemma_pow10_values();
        assert(fv * pow10((8 - frac_len) as nat) <= (pow10(frac_len as nat) - 1) * pow10(
            (8 - frac_len) as nat,
        )) by (nonlinear_arith)
            requires
                fv <= pow10(frac_len as nat) - 1,
                pow10((8 - frac_len) as nat) >= 1,
        ;
        assert((pow10(frac_len as nat) - 1) * pow10((8 - frac_len) as nat) == pow10(
            frac_len as nat,
        ) * pow10((8 - frac_len) as nat) - pow10((8 - frac_len) as nat)) by (nonlinear_arith);
        assert(fv * pow10((8 - frac_len) as nat) >= 0) by (nonlinear_arith)
            requires
                fv >= 0,
                pow10((8 - frac_len) as nat) >= 1,
        ;
    }
    let scale = pow10_u64(8 - frac_len);
    Some(Price { units: iv * PRICE_SCALE + fv * scale })
}

} // verus!
