//! Rendering a number of seconds as `HH:MM:SS`, hours growing beyond two
//! digits when needed.

use vstd::prelude::*;
use vstd::string::StringExecFns;

verus! {

/// The decimal digit character for `d` in `0..10`.
pub open spec fn digit_char(d: int) -> char {
    if d == 0 {
        '0'
    } else if d == 1 {
        '1'
    } else if d == 2 {
        '2'
    } else if d == 3 {
        '3'
    } else if d == 4 {
        '4'
    } else if d == 5 {
        '5'
    } else if d == 6 {
        '6'
    } else if d == 7 {
        '7'
    } else if d == 8 {
        '8'
    } else {
        '9'
    }
}

/// The two-digit decimal rendering of `n` in `0..100`.
pub open spec fn two_digit_seq(n: int) -> Seq<char> {
    seq![digit_char(n / 10), digit_char(n % 10)]
}

/// The decimal rendering of `n`, without padding.
pub open spec fn dec_seq(n: nat) -> Seq<char>
    decreases n,
{
    if n < 10 {
        seq![digit_char(n as int)]
    } else {
        dec_seq(n / 10).push(digit_char((n % 10) as int))
    }
}

/// The hour field: two digits at least, more when the hours demand it.
pub open spec fn hours_seq(h: nat) -> Seq<char> {
    if h < 10 {
        seq!['0', digit_char(h as int)]
    } else {
        dec_seq(h)
    }
}

/// `HH:MM:SS` for a number of seconds, the hour field growing beyond two
/// digits when needed.
pub open spec fn format_duration_seq(seconds: nat) -> Seq<char> {
    hours_seq(seconds / 3600) + seq![':'] + two_digit_seq(((seconds % 3600) / 60) as int) + seq![
        ':',
    ] + two_digit_seq((seconds % 60) as int)
}

/// The one-character string for digit `d`.
fn digit_str(d: u64) -> (r: &'static str)
    requires
        d < 10,
    ensures
        r@ == seq![digit_char(d as int)],
{
    let r: &'static str = if d == 0 {
        "0"
    } else if d == 1 {
        "1"
    } else if d == 2 {
        "2"
    } else if d == 3 {
        "3"
    } else if d == 4 {
        "4"
    } else if d == 5 {
        "5"
    } else if d == 6 {
        "6"
    } else if d == 7 {
        "7"
    } else if d == 8 {
        "8"
    } else {
        "9"
    };
    proof {
        reveal_strlit("0");
        reveal_strlit("1");
        reveal_strlit("2");
        reveal_strlit("3");
        reveal_strlit("4");
        reveal_strlit("5");
        reveal_strlit("6");
        reveal_strlit("7");
        reveal_strlit("8");
        reveal_strlit("9");
        assert(r@ =~= seq![digit_char(d as int)]);
    }
    r
}

/// The decimal rendering of `n`, without padding.
fn dec_str(n: u64) -> (r: String)
    ensures
        r@ == dec_seq(n as nat),
    decreases n,
{
    if n < 10 {
        String::from_str(digit_str(n))
    } else {
        let prefix = dec_str(n / 10);
        let r = prefix.concat(digit_str(n % 10));
        proof {
            assert(r@ =~= dec_seq(n as nat));
        }
        r
    }
}

/// The two-digit rendering of `n` in `0..100`.
fn two_digit_str(n: u64) -> (r: String)
    requires
        n < 100,
    ensures
        r@ == two_digit_seq(n as int),
{
    let r = String::from_str(digit_str(n / 10)).concat(digit_str(n % 10));
    proof {
        assert(r@ =~= two_digit_seq(n as int));
    }
    r
}

/// Renders a number of seconds as `HH:MM:SS`, for the tray display.
pub fn format_duration(seconds: u64) -> (r: String)
    ensures
        r@ == format_duration_seq(seconds as nat),
{
    let hours = seconds / 3600;
    let minutes = (seconds % 3600) / 60;
    let secs = seconds % 60;
    let hstr = if hours < 10 {
        let h = String::from_str("0").concat(digit_str(hours));
        proof {
            reveal_strlit("0");
            assert(h@ =~= hours_seq((seconds / 3600) as nat));
        }
        h
    } else {
        dec_str(hours)
    };
    let r = hstr.concat(":").concat(two_digit_str(minutes).as_str()).concat(":").concat(
        two_digit_str(secs).as_str(),
    );
    proof {
        reveal_strlit(":");
        assert(r@ =~= format_duration_seq(seconds as nat));
    }
    r
}

} // verus!
