//! Rendering an accumulated duration as `HH:MM:SS.CC`.
//!
//! Minutes, seconds and hundredths are always two digits; the hour field
//! grows beyond two digits for durations of one hundred hours or more.
//! Hundredths are truncated, not rounded.

use vstd::prelude::*;
use vstd::string::StringExecFns;

verus! {

/// The decimal digit character for `d` (meaningful for `d < 10`).
pub open spec fn digit_char(d: nat) -> char {
    if d == 0 {
        '0'
    } else if d == 1 {
        '1'
    } else if d == 2 {
        '2'
    } else if d == 3 {
        '3'
    } else if d == 4 {
        '4'
    } else if d == 5 {
        '5'
    } else if d == 6 {
        '6'
    } else if d == 7 {
        '7'
    } else if d == 8 {
        '8'
    } else {
        '9'
    }
}

/// The decimal digits of `n`, most significant first, with no leading zeros
/// (a single `'0'` for zero itself).
pub open spec fn dec_digits(n: nat) -> Seq<char>
    decreases n,
{
    if n < 10 {
        seq![digit_char(n)]
    } else {
        dec_digits(n / 10) + seq![digit_char(n % 10)]
    }
}

/// The decimal digits of `n`, padded on the left with `'0'` to at least two.
pub open spec fn pad2(n: nat) -> Seq<char> {
    if n < 10 {
        seq!['0'] + dec_digits(n)
    } else {
        dec_digits(n)
    }
}

/// Whole hours in `millis` milliseconds.
pub open spec fn hours_of(millis: nat) -> nat {
    (millis / 1000) / 3600
}

/// Minutes past the hour.
pub open spec fn minutes_of(millis: nat) -> nat {
    ((millis / 1000) % 3600) / 60
}

/// Seconds past the minute.
pub open spec fn seconds_of(millis: nat) -> nat {
    (millis / 1000) % 60
}

/// Hundredths of a second past the whole second, truncated.
pub open spec fn centis_of(millis: nat) -> nat {
    (millis % 1000) / 10
}

/// The full rendering: `HH:MM:SS.CC`.
pub open spec fn rendered(millis: nat) -> Seq<char> {
    pad2(hours_of(millis)) + seq![':'] + pad2(minutes_of(millis)) + seq![':'] + pad2(
        seconds_of(millis),
    ) + seq!['.'] + pad2(centis_of(millis))
}

/// The one-character string for a single decimal digit.
fn digit_str(d: u64) -> (s: &'static str)
    requires
        d < 10,
    ensures
        s@ == seq![digit_char(d as nat)],
{
    proof {
        reveal_strlit("0");
        reveal_strlit("1");
        reveal_strlit("2");
        reveal_strlit("3");
        reveal_strlit("4");
        reveal_strlit("5");
        reveal_strlit("6");
        reveal_strlit("7");
        reveal_strlit("8");
        reveal_strlit("9");
    }
    if d == 0 {
        "0"
    } else if d == 1 {
        "1"
    } else if d == 2 {
        "2"
    } else if d == 3 {
        "3"
    } else if d == 4 {
        "4"
    } else if d == 5 {
        "5"
    } else if d == 6 {
        "6"
    } else if d == 7 {
        "7"
    } else if d == 8 {
        "8"
    } else {
        "9"
    }
}

/// The decimal digits of `n`, with no leading zeros.
fn dec_string(n: u64) -> (s: String)
    ensures
        s@ == dec_digits(n as nat),
    decreases n,
{
    if n < 10 {
        String::from_str(digit_str(n))
    } else {
        let mut s = dec_string(n / 10);
        s.append(digit_str(n % 10));
        s
    }
}

/// The decimal digits of `n`, zero-padded on the left to at least two.
fn pad2_string(n: u64) -> (s: String)
    ensures
        s@ == pad2(n as nat),
{
    if n < 10 {
        let mut s = String::from_str("0");
        proof {
            reveal_strlit("0");
        }
        s.append(digit_str(n));
        s
    } else {
        dec_string(n)
    }
}

/// Render `total_millis` milliseconds as `HH:MM:SS.CC`.
pub fn format_duration(total_millis: u64) -> (s: String)
    ensures
        s@ == rendered(total_millis as nat),
{
    let total_seconds: u64 = total_millis / 1000;
    let hours: u64 = total_seconds / 3600;
    let minutes: u64 = (total_seconds % 3600) / 60;
    let seconds: u64 = total_seconds % 60;
    let centis: u64 = (total_millis % 1000) / 10;
    let mut s = pad2_string(hours);
    let part_minutes = pad2_string(minutes);
    let part_seconds = pad2_string(seconds);
    let part_centis = pad2_string(centis);
    s.append(":");
    s.append(part_minutes.as_str());
    s.append(":");
    s.append(part_seconds.as_str());
    s.append(".");
    s.append(part_centis.as_str());
    proof {
        reveal_strlit(":");
        reveal_strlit(".");
        assert(s@ =~= rendered(total_millis as nat));
    }
    s
}

/// Zero renders as `00:00:00.00`.
pub proof fn lemma_rendered_zero()
    ensures
        rendered(0) == "00:00:00.00"@,
{
    reveal_strlit("00:00:00.00");
    assert(rendered(0) =~= "00:00:00.00"@);
}

} // verus!
