//! Shared text helpers: human-readable durations and byte counts.
//!
//! Both formatters are specified down to the exact character sequence they
//! produce, over a decimal-digits spec that pins each number's rendering.

use vstd::prelude::*;

verus! {

/// One kibibyte.
pub const KB: u64 = 1024;

/// One mebibyte.
pub const MB: u64 = 1024 * 1024;

/// One gibibyte.
pub const GB: u64 = 1024 * 1024 * 1024;

/// The character of one decimal digit.
pub open spec fn digit_char(d: int) -> char {
    if d == 0 {
        '0'
    } else if d == 1 {
        '1'
    } else if d == 2 {
        '2'
    } else if d == 3 {
        '3'
    } else if d == 4 {
        '4'
    } else if d == 5 {
        '5'
    } else if d == 6 {
        '6'
    } else if d == 7 {
        '7'
    } else if d == 8 {
        '8'
    } else {
        '9'
    }
}

/// The decimal rendering of a number, most significant digit first, with
/// no leading zeros (zero itself renders as "0").
pub open spec fn dec_digits(n: nat) -> Seq<char>
    decreases n,
{
    if n < 10 {
        seq![digit_char(n as int)]
    } else {
        dec_digits(n / 10) + seq![digit_char((n % 10) as int)]
    }
}

/// The rendering of a duration in seconds: seconds below one minute,
/// minutes (and leftover seconds, when any) below one hour, else hours and
/// leftover minutes (when any).
pub open spec fn spec_format_duration(seconds: u64) -> Seq<char> {
    if seconds < 60 {
        dec_digits(seconds as nat) + seq!['s']
    } else if seconds < 3600 {
        let mins = seconds as nat / 60;
        let secs = seconds as nat % 60;
        if secs == 0 {
            dec_digits(mins) + seq!['m']
        } else {
            dec_digits(mins) + seq!['m', ' '] + dec_digits(secs) + seq!['s']
        }
    } else {
        let hours = seconds as nat / 3600;
        let mins = (seconds as nat % 3600) / 60;
        if mins == 0 {
            dec_digits(hours) + seq!['h']
        } else {
            dec_digits(hours) + seq!['h', ' '] + dec_digits(mins) + seq!['m']
        }
    }
}

/// A byte count scaled by a unit, in tenths, rounded to the nearest tenth
/// with ties to even — the rounding that one-decimal float formatting
/// prints.  The quotient is taken exactly, never through a double, so for
/// counts too large for a double to hold exactly it is the exact value
/// that gets rendered.
pub open spec fn spec_scaled_tenths(bytes: u64, unit: u64) -> nat {
    let num = (bytes as int) * 10;
    let t = num / (unit as int);
    let rem = num % (unit as int);
    if 2 * rem > unit || (2 * rem == unit && t % 2 == 1) {
        (t + 1) as nat
    } else {
        t as nat
    }
}

/// The rendering of a scaled byte count: whole part, '.', one tenths
/// digit.
pub open spec fn spec_scaled(bytes: u64, unit: u64) -> Seq<char> {
    let t = spec_scaled_tenths(bytes, unit);
    dec_digits(t / 10) + seq!['.'] + seq![digit_char((t % 10) as int)]
}

/// The rendering of a byte count: scaled to the largest unit it reaches,
/// plain bytes below one KB.
pub open spec fn spec_format_bytes(bytes: u64) -> Seq<char> {
    if bytes >= GB {
        spec_scaled(bytes, GB) + seq![' ', 'G', 'B']
    } else if bytes >= MB {
        spec_scaled(bytes, MB) + seq![' ', 'M', 'B']
    } else if bytes >= KB {
        spec_scaled(bytes, KB) + seq![' ', 'K', 'B']
    } else {
        dec_digits(bytes as nat) + seq![' ', 'B']
    }
}

/// One decimal digit as a string slice.
fn digit_str(d: u64) -> (r: &'static str)
    requires
        d < 10,
    ensures
        r@ =~= seq![digit_char(d as int)],
{
    if d == 0 {
        proof {
            reveal_strlit("0");
        }
        "0"
    } else if d == 1 {
        proof {
            reveal_strlit("1");
        }
        "1"
    } else if d == 2 {
        proof {
            reveal_strlit("2");
        }
        "2"
    } else if d == 3 {
        proof {
            reveal_strlit("3");
        }
        "3"
    } else if d == 4 {
        proof {
            reveal_strlit("4");
        }
        "4"
    } else if d == 5 {
        proof {
            reveal_strlit("5");
        }
        "5"
    } else if d == 6 {
        proof {
            reveal_strlit("6");
        }
        "6"
    } else if d == 7 {
        proof {
            reveal_strlit("7");
        }
        "7"
    } else if d == 8 {
        proof {
            reveal_strlit("8");
        }
        "8"
    } else {
        proof {
            reveal_strlit("9");
        }
        "9"
    }
}

/// Renders a number in decimal.
pub fn u64_to_string(n: u64) -> (r: String)
    ensures
        r@ == dec_digits(n as nat),
    decreases n,
{
    if n < 10 {
        String::from_str(digit_str(n))
    } else {
        let mut prefix = u64_to_string(n / 10);
        prefix.append(digit_str(n % 10));
        prefix
    }
}

/// Formats a duration in seconds as a short human-readable string.
pub fn format_duration(seconds: u64) -> (r: String)
    ensures
        r@ == spec_format_duration(seconds),
{
    if seconds < 60 {
        let mut s = u64_to_string(seconds);
        proof {
            reveal_strlit("s");
        }
        s.append("s");
        s
    } else if seconds < 3600 {
        let mins = seconds / 60;
        let secs = seconds % 60;
        if secs == 0 {
            let mut s = u64_to_string(mins);
            proof {
                reveal_strlit("m");
            }
            s.append("m");
            s
        } else {
            let mut s = u64_to_string(mins);
            proof {
                reveal_strlit("m ");
                assert("m "@ =~= seq!['m', ' ']);
            }
            s.append("m ");
            let tail = u64_to_string(secs);
            s.append(tail.as_str());
            proof {
                reveal_strlit("s");
            }
            s.append("s");
            proof {
                assert(s@ =~= spec_format_duration(seconds));
            }
            s
        }
    } else {
        let hours = seconds / 3600;
        let mins = (seconds % 3600) / 60;
        if mins == 0 {
            let mut s = u64_to_string(hours);
            proof {
                reveal_strlit("h");
            }
            s.append("h");
            s
        } else {
            let mut s = u64_to_string(hours);
            proof {
                reveal_strlit("h ");
                assert("h "@ =~= seq!['h', ' ']);
            }
            s.append("h ");
            let tail = u64_to_string(mins);
            s.append(tail.as_str());
            proof {
                reveal_strlit("m");
            }
            s.append("m");
            proof {
                assert(s@ =~= spec_format_duration(seconds));
            }
            s
        }
    }
}

/// Renders a byte count scaled by a unit as "whole.tenth".
fn scaled_string(bytes: u64, unit: u64) -> (r: String)
    requires
        unit >= 16,
    ensures
        r@ == spec_scaled(bytes, unit),
{
    let num: u128 = (bytes as u128) * 10;
    let t: u128 = num / (unit as u128);
    let rem: u128 = num % (unit as u128);
    proof {
        vstd::arithmetic::div_mod::lemma_div_is_ordered_by_denominator(
            num as int,
            16,
            unit as int,
        );
        vstd::arithmetic::div_mod::lemma_div_is_ordered(num as int, 184467440737095516150int, 16);
        assert(t <= 184467440737095516150int / 16);
    }
    let round_up: bool = 2 * rem > (unit as u128) || (2 * rem == (unit as u128) && t % 2 == 1);
    let t_wide: u128 = if round_up {
        t + 1
    } else {
        t
    };
    proof {
        assert(t_wide as int == spec_scaled_tenths(bytes, unit));
        vstd::arithmetic::div_mod::lemma_div_nonincreasing(t_wide as int, 10);
    }
    let whole: u64 = (t_wide / 10) as u64;
    let tenth: u64 = (t_wide % 10) as u64;
    let mut s = u64_to_string(whole);
    proof {
        reveal_strlit(".");
    }
    s.append(".");
    s.append(digit_str(tenth));
    proof {
        assert(s@ =~= spec_scaled(bytes, unit));
    }
    s
}

/// Formats a byte count as a short human-readable string, scaled to the
/// largest binary unit it reaches, with one tenths digit.
pub fn format_bytes(bytes: u64) -> (r: String)
    ensures
        r@ == spec_format_bytes(bytes),
{
    if bytes >= GB {
        let mut s = scaled_string(bytes, GB);
        proof {
            reveal_strlit(" GB");
            assert(" GB"@ =~= seq![' ', 'G', 'B']);
        }
        s.append(" GB");
        s
    } else if bytes >= MB {
        let mut s = scaled_string(bytes, MB);
        proof {
            reveal_strlit(" MB");
            assert(" MB"@ =~= seq![' ', 'M', 'B']);
        }
        s.append(" MB");
        s
    } else if bytes >= KB {
        let mut s = scaled_string(bytes, KB);
        proof {
            reveal_strlit(" KB");
            assert(" KB"@ =~= seq![' ', 'K', 'B']);
        }
        s.append(" KB");
        s
    } else {
        let mut s = u64_to_string(bytes);
        proof {
            reveal_strlit(" B");
            assert(" B"@ =~= seq![' ', 'B']);
        }
        s.append(" B");
        s
    }
}

} // verus!
