//! Configuration decisions made once at startup.
//!
//! The process reads its configuration file elsewhere and hands the raw
//! setting strings to this module.  The only value the core needs is the
//! polling interval in minutes: a positive integer, with a default of five
//! when the setting is absent, not a number, or zero.

use vstd::prelude::*;

use crate::digits::{all_digits, digits_val, digits_value};

verus! {

/// The grammar of an accepted unsigned integer setting: one to ten digits
/// denoting a value that fits in a `u32`.
pub open spec fn valid_u32_string(s: Seq<char>) -> bool {
    &&& 1 <= s.len() <= 10
    &&& all_digits(s)
    &&& digits_val(s) <= u32::MAX
}

/// Parses a setting as an unsigned integer.
pub fn parse_u32(s: &str) -> (r: Option<u32>)
    ensures
        r is Some <==> valid_u32_string(s@),
        r is Some ==> r->0 == digits_val(s@),
{
    let n = s.unicode_len();
    if n < 1 || n > 10 {
        return None;
    }
    match digits_value(s, 0, n) {
        None => {
            proof {
                assert(s@.subrange(0, n as int) =~= s@);
            }
            None
        },
        Some(v) => {
            proof {
                assert(s@.subrange(0, n as int) =~= s@);
            }
            if v <= 0xffff_ffff {
                Some(v as u32)
            } else {
                None
            }
        },
    }
}

/// The interval that a present setting string configures: its numeric value
/// when it is a positive integer, and the default of five otherwise.
pub open spec fn interval_of(s: Seq<char>) -> int {
    if valid_u32_string(s) && digits_val(s) >= 1 {
        digits_val(s)
    } else {
        5
    }
}

/// Decides the polling interval, in minutes, from the optional setting
/// string.  The result is always positive, so the scheduler's precondition
/// holds for every configuration.
pub fn interval_minutes_from_setting(setting: Option<&str>) -> (r: u32)
    ensures
        setting is None ==> r == 5,
        setting matches Some(s) ==> r == interval_of(s@),
        r >= 1,
{
    match setting {
        None => 5,
        Some(s) => {
            match parse_u32(s) {
                Some(v) => {
                    if v >= 1 {
                        v
                    } else {
                        5
                    }
                },
                None => 5,
            }
        },
    }
}

} // verus!
