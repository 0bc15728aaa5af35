//! Digit strings and their numeric values.
//!
//! Both the price grammar and the configuration surface read unsigned decimal
//! numbers from text; this module holds the shared notion of a digit string,
//! its value, and a verified scanner for it.

use vstd::prelude::*;

verus! {

/// Whether `c` is a decimal digit.
pub open spec fn is_digit(c: char) -> bool {
    48 <= c as u32 <= 57
}

/// The numeric value of a digit character.
pub open spec fn digit_val(c: char) -> int {
    c as u32 - 48
}

/// Whether every character of `s` is a decimal digit.
pub open spec fn all_digits(s: Seq<char>) -> bool {
    forall|j: int| 0 <= j < s.len() ==> is_digit(s[j])
}

/// The number denoted by a digit string, most significant digit first.
pub open spec fn digits_val(s: Seq<char>) -> int
    decreases s.len(),
{
    if s.len() == 0 {
        0
    } else {
        digits_val(s.drop_last()) * 10 + digit_val(s.last())
    }
}

/// Ten to the `n`.
pub open spec fn pow10(n: nat) -> int
    decreases n,
{
    if n == 0 {
        1
    } else {
        10 * pow10((n - 1) as nat)
    }
}

pub proof fn lemma_pow10_values()
    ensures
        pow10(0) == 1,
        pow10(1) == 10,
        pow10(2) == 100,
        pow10(3) == 1000,
        pow10(4) == 10000,
        pow10(5) == 100000,
        pow10(6) == 1000000,
        pow10(7) == 10000000,
        pow10(8) == 100000000,
        pow10(9) == 1000000000,
        pow10(10) == 10000000000,
        pow10(11) == 100000000000,
{
    assert(pow10(0) == 1);
    assert(pow10(1) == 10);
    assert(pow10(2) == 100);
    assert(pow10(3) == 1000);
    assert(pow10(4) == 10000);
    assert(pow10(5) == 100000);
    assert(pow10(6) == 1000000);
    assert(pow10(7) == 10000000);
    assert(pow10(8) == 100000000);
    assert(pow10(9) == 1000000000);
    assert(pow10(10) == 10000000000);
    assert(pow10(11) == 100000000000);
}

pub proof fn lemma_pow10_monotone(a: nat, b: nat)
    requires
        a <= b,
    ensures
        1 <= pow10(a) <= pow10(b),
    decreases b,
{
    if a < b {
        lemma_pow10_monotone(a, (b - 1) as nat);
    } else if a > 0 {
        lemma_pow10_monotone((a - 1) as nat, (a - 1) as nat);
    }
}

pub proof fn lemma_pow10_adds(a: nat, b: nat)
    ensures
        pow10(a + b) == pow10(a) * pow10(b),
    decreases a,
{
    if a == 0 {
    } else {
        lemma_pow10_adds((a - 1) as nat, b);
        assert(pow10(a) * pow10(b) == 10 * pow10((a - 1) as nat) * pow10(b));
        assert(10 * pow10((a - 1) as nat) * pow10(b) == 10 * (pow10((a - 1) as nat) * pow10(b)))
            by (nonlinear_arith);
    }
}

/// A digit string of length `n` denotes a value below `pow10(n)`.
pub proof fn lemma_digits_val_bound(s: Seq<char>)
    requires
        all_digits(s),
    ensures
        0 <= digits_val(s) < pow10(s.len()),
    decreases s.len(),
{
    if s.len() == 0 {
    } else {
        assert(all_digits(s.drop_last()));
        lemma_digits_val_bound(s.drop_last());
        assert(is_digit(s.last()));
        let p = pow10((s.len() - 1) as nat);
        assert(digits_val(s.drop_last()) * 10 <= (p - 1) * 10) by (nonlinear_arith)
            requires digits_val(s.drop_last()) <= p - 1;
        assert(digits_val(s.drop_last()) * 10 >= 0) by (nonlinear_arith)
            requires digits_val(s.drop_last()) >= 0;
    }
}

/// The numeric value of the digit character `c`, if it is one.
pub fn char_digit(c: char) -> (r: Option<u8>)
    ensures
        r is Some <==> is_digit(c),
        r is Some ==> r->0 == digit_val(c),
{
    let u = c as u32;
    if 48 <= u && u <= 57 {
        Some((u - 48) as u8)
    } else {
        None
    }
}

/// Reads `s[from..to]` as a digit string, most significant digit first.
/// Returns `None` as soon as a non-digit appears.
pub fn digits_value(s: &str, from: usize, to: usize) -> (r: Option<u64>)
    requires
        from <= to <= s@.len(),
        to - from <= 11,
    ensures
        r is Some <==> all_digits(s@.subrange(from as int, to as int)),
        r is Some ==> r->0 == digits_val(s@.subrange(from as int, to as int)),
{
    let mut val: u64 = 0;
    let mut i: usize = from;
    while i < to
        invariant
            from <= i <= to <= s@.len(),
            to - from <= 11,
            all_digits(s@.subrange(from as int, i as int)),
            val == digits_val(s@.subrange(from as int, i as int)),
        decreases to - i,
    {
        let c = s.get_char(i);
        match char_digit(c) {
            None => {
                proof {
                    assert(s@.subrange(from as int, to as int)[i - from] == c);
                }
                return None;
            },
            Some(d) => {
                proof {
                    lemma_digits_val_bound(s@.subrange(from as int, i as int));
                    lemma_pow10_monotone((i - from) as nat, 10);
                    lemma_pow10_values();
                }
                val = val * 10 + (d as u64);
                proof {
                    let prev = s@.subrange(from as int, i as int);
                    let cur = s@.subrange(from as int, i + 1);
                    assert(cur.drop_last() =~= prev);
                    assert(cur.last() == c);
                    assert(all_digits(cur));
                }
                i += 1;
            },
        }
    }
    proof {
        assert(s@.subrange(from as int, i as int) =~= s@.subrange(from as int, to as int));
    }
    Some(val)
}

/// Computes `pow10(n)` for `n` up to eight.
pub fn pow10_u64(n: usize) -> (r: u64)
    requires
        n <= 8,
    ensures
        r == pow10(n as nat),
{
    let mut r: u64 = 1;
    let mut i: usize = 0;
    while i < n
        invariant
            i <= n <= 8,
            r == pow10(i as nat),
        decreases n - i,
    {
        proof {
            lemma_pow10_monotone(i as nat, 7);
            lemma_pow10_values();
        }
        r = r * 10;
        i += 1;
    }
    r
}

} // verus!
