//! Formatting a monotonic millisecond count as the clock text
//! `MM:SS.cc` (minutes, seconds, centiseconds, each zero-padded to two
//! digits; minutes wrap at 100 so the line keeps its width).

use vstd::prelude::*;

verus! {

/// The ASCII digit for `d`.
pub open spec fn digit_char(d: int) -> char {
    if d == 0 {
        '0'
    } else if d == 1 {
        '1'
    } else if d == 2 {
        '2'
    } else if d == 3 {
        '3'
    } else if d == 4 {
        '4'
    } else if d == 5 {
        '5'
    } else if d == 6 {
        '6'
    } else if d == 7 {
        '7'
    } else if d == 8 {
        '8'
    } else {
        '9'
    }
}

/// Centiseconds shown for `ms` milliseconds: hundredths within the
/// current second.
pub open spec fn spec_centis(ms: u64) -> int {
    (ms as int / 10) % 100
}

/// Seconds shown for `ms` milliseconds: 0 through 59.
pub open spec fn spec_seconds(ms: u64) -> int {
    (ms as int / 1000) % 60
}

/// Minutes shown for `ms` milliseconds; the field wraps at 100.
pub open spec fn spec_minutes(ms: u64) -> int {
    (ms as int / 1000 / 60) % 100
}

/// The eight characters `MM:SS.cc` shown for `ms` milliseconds.
pub open spec fn spec_format_ms(ms: u64) -> Seq<char> {
    seq![
        digit_char(spec_minutes(ms) / 10),
        digit_char(spec_minutes(ms) % 10),
        ':',
        digit_char(spec_seconds(ms) / 10),
        digit_char(spec_seconds(ms) % 10),
        '.',
        digit_char(spec_centis(ms) / 10),
        digit_char(spec_centis(ms) % 10),
    ]
}

/// The digit `d` as a one-character string slice.
fn digit_str(d: u64) -> (r: &'static str)
    requires
        d < 10,
    ensures
        r@ =~= seq![digit_char(d as int)],
{
    proof {
        reveal_strlit("0");
        reveal_strlit("1");
        reveal_strlit("2");
        reveal_strlit("3");
        reveal_strlit("4");
        reveal_strlit("5");
        reveal_strlit("6");
        reveal_strlit("7");
        reveal_strlit("8");
        reveal_strlit("9");
    }
    match d {
        0 => "0",
        1 => "1",
        2 => "2",
        3 => "3",
        4 => "4",
        5 => "5",
        6 => "6",
        7 => "7",
        8 => "8",
        _ => "9",
    }
}

/// Render `ms` milliseconds of elapsed time as `MM:SS.cc`.
pub fn format_ms(ms: u64) -> (r: String)
    ensures
        r@ == spec_format_ms(ms),
        r@.len() == 8,
{
    let total_centis = ms / 10;
    let cc = total_centis % 100;
    let total_secs = total_centis / 100;
    let ss = total_secs % 60;
    let mm = (total_secs / 60) % 100;
    proof {
        assert(ms as int / 10 / 100 == ms as int / 1000) by {
            vstd::arithmetic::div_mod::lemma_div_denominator(ms as int, 10, 100);
        }
        reveal_strlit(":");
        reveal_strlit(".");
    }
    let mut out = String::new();
    out.append(digit_str(mm / 10));
    out.append(digit_str(mm % 10));
    out.append(":");
    out.append(digit_str(ss / 10));
    out.append(digit_str(ss % 10));
    out.append(".");
    out.append(digit_str(cc / 10));
    out.append(digit_str(cc % 10));
    proof {
        assert(out@ =~= spec_format_ms(ms));
    }
    out
}

} // verus!
