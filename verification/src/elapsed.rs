//! Rendering of counts and elapsed times as text.

use vstd::prelude::*;
use vstd::string::StringExecFns;

verus! {

/// The character of a decimal digit.
pub open spec fn digit_char(d: nat) -> char
    recommends
        d < 10,
{
    if d == 0 {
        '0'
    } else if d == 1 {
        '1'
    } else if d == 2 {
        '2'
    } else if d == 3 {
        '3'
    } else if d == 4 {
        '4'
    } else if d == 5 {
        '5'
    } else if d == 6 {
        '6'
    } else if d == 7 {
        '7'
    } else if d == 8 {
        '8'
    } else {
        '9'
    }
}

/// A number written in base ten, without sign or leading zeros.
pub open spec fn decimal(n: nat) -> Seq<char>
    decreases n,
{
    if n < 10 {
        seq![digit_char(n)]
    } else {
        decimal(n / 10).push(digit_char(n % 10))
    }
}

/// How long a run took, in words: `immediately` for no whole second,
/// `in Ns` below a minute, `in Mm` for whole minutes and `in Mm Ns` otherwise.
pub open spec fn elapsed_text(secs: nat) -> Seq<char> {
    if secs == 0 {
        "immediately"@
    } else if secs < 60 {
        "in "@ + decimal(secs) + "s"@
    } else if secs % 60 == 0 {
        "in "@ + decimal(secs / 60) + "m"@
    } else {
        "in "@ + decimal(secs / 60) + "m "@ + decimal(secs % 60) + "s"@
    }
}

/// A duration in milliseconds rounded to whole seconds, half a second
/// rounding up.
pub open spec fn rounded_seconds(millis: nat) -> nat {
    (millis + 500) / 1000
}

/// Rounds a duration in milliseconds to whole seconds.
pub fn round_to_seconds(millis: u64) -> (r: u64)
    ensures
        r as nat == rounded_seconds(millis as nat),
{
    let whole: u64 = millis / 1000;
    if millis % 1000 >= 500 {
        whole + 1
    } else {
        whole
    }
}

fn digit_str(d: u64) -> (r: &'static str)
    requires
        d < 10,
    ensures
        r@ == seq![digit_char(d as nat)],
{
    proof {
        reveal_strlit("0");
        reveal_strlit("1");
        reveal_strlit("2");
        reveal_strlit("3");
        reveal_strlit("4");
        reveal_strlit("5");
        reveal_strlit("6");
        reveal_strlit("7");
        reveal_strlit("8");
        reveal_strlit("9");
    }
    let r = if d == 0 {
        "0"
    } else if d == 1 {
        "1"
    } else if d == 2 {
        "2"
    } else if d == 3 {
        "3"
    } else if d == 4 {
        "4"
    } else if d == 5 {
        "5"
    } else if d == 6 {
        "6"
    } else if d == 7 {
        "7"
    } else if d == 8 {
        "8"
    } else {
        "9"
    };
    assert(r@ =~= seq![digit_char(d as nat)]);
    r
}

/// Writes a number in base ten.
pub fn decimal_string(n: u64) -> (r: String)
    ensures
        r@ == decimal(n as nat),
    decreases n,
{
    if n < 10 {
        String::from_str(digit_str(n))
    } else {
        let mut r = decimal_string(n / 10);
        r.append(digit_str(n % 10));
        assert(r@ =~= decimal((n / 10) as nat).push(digit_char((n % 10) as nat)));
        r
    }
}

/// Renders an elapsed time of whole seconds for the completion banner.
pub fn time_to_str(s: u64) -> (r: String)
    ensures
        r@ == elapsed_text(s as nat),
{
    if s == 0 {
        String::from_str("immediately")
    } else if s < 60 {
        let mut r = String::from_str("in ");
        r.append(decimal_string(s).as_str());
        r.append("s");
        r
    } else {
        let m: u64 = s / 60;
        let rest: u64 = s % 60;
        let mut r = String::from_str("in ");
        r.append(decimal_string(m).as_str());
        if rest == 0 {
            r.append("m");
        } else {
            r.append("m ");
            r.append(decimal_string(rest).as_str());
            r.append("s");
        }
        r
    }
}

} // verus!
