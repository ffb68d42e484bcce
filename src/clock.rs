use vstd::prelude::*;

verus! {

pub const DIGITS: &'static str = "0123456789";

/// The decimal digits of `n`, without leading zeros.
pub open spec fn decimal(n: nat) -> Seq<char>
    decreases n,
{
    if n < 10 {
        seq![DIGITS@[n as int]]
    } else {
        decimal(n / 10).push(DIGITS@[(n % 10) as int])
    }
}

/// `decimal(n)` with zeros in front up to two digits.
pub open spec fn two_digits(n: nat) -> Seq<char> {
    if n < 10 {
        seq!['0'] + decimal(n)
    } else {
        decimal(n)
    }
}

/// `decimal(n)` with zeros in front up to three digits.
pub open spec fn three_digits(n: nat) -> Seq<char> {
    if n < 10 {
        seq!['0', '0'] + decimal(n)
    } else if n < 100 {
        seq!['0'] + decimal(n)
    } else {
        decimal(n)
    }
}

/// The elapsed time `millis` as hours and minutes of at least two digits,
/// then seconds within the minute and their thousandths:
/// `"01:02:3.045"` for one hour, two minutes, three seconds and 45 ms.
pub open spec fn clock_text(millis: u64) -> Seq<char> {
    let secs = millis / 1000;
    two_digits((secs / 3600) as nat) + seq![':'] + two_digits(((secs % 3600) / 60) as nat) + seq![':']
        + decimal((secs % 60) as nat) + seq!['.'] + three_digits((millis % 1000) as nat)
}

fn digit_text(d: u64) -> (r: &'static str)
    requires
        d < 10,
    ensures
        r@ == seq![DIGITS@[d as int]],
{
    proof {
        reveal_strlit("0123456789");
    }
    match d {
        0 => {
            proof { reveal_strlit("0"); }
            "0"
        },
        1 => {
            proof { reveal_strlit("1"); }
            "1"
        },
        2 => {
            proof { reveal_strlit("2"); }
            "2"
        },
        3 => {
            proof { reveal_strlit("3"); }
            "3"
        },
        4 => {
            proof { reveal_strlit("4"); }
            "4"
        },
        5 => {
            proof { reveal_strlit("5"); }
            "5"
        },
        6 => {
            proof { reveal_strlit("6"); }
            "6"
        },
        7 => {
            proof { reveal_strlit("7"); }
            "7"
        },
        8 => {
            proof { reveal_strlit("8"); }
            "8"
        },
        _ => {
            proof { reveal_strlit("9"); }
            "9"
        },
    }
}

fn push_decimal(out: &mut String, n: u64)
    ensures
        final(out)@ == old(out)@ + decimal(n as nat),
    decreases n,
{
    if n >= 10 {
        push_decimal(out, n / 10);
    }
    out.append(digit_text(n % 10));
    proof {
        assert(old(out)@ + decimal((n / 10) as nat) + seq![DIGITS@[(n % 10) as int]] == old(out)@
            + decimal((n / 10) as nat).push(DIGITS@[(n % 10) as int]));
    }
}

fn push_text(out: &mut String, text: &str)
    ensures
        final(out)@ == old(out)@ + text@,
{
    out.append(text);
}

/// Writes `millis` of elapsed time as a clock, in the form `clock_text` gives.
pub fn format_clock(millis: u64) -> (r: String)
    ensures
        r@ == clock_text(millis),
{
    proof {
        reveal_strlit("0");
        reveal_strlit("00");
        reveal_strlit(":");
        reveal_strlit(".");
    }
    let secs = millis / 1000;
    let hours = secs / 3600;
    let minutes = (secs % 3600) / 60;
    let seconds = secs % 60;
    let thousandths = millis % 1000;
    let mut out = String::new();
    if hours < 10 {
        push_text(&mut out, "0");
    }
    push_decimal(&mut out, hours);
    push_text(&mut out, ":");
    if minutes < 10 {
        push_text(&mut out, "0");
    }
    push_decimal(&mut out, minutes);
    push_text(&mut out, ":");
    push_decimal(&mut out, seconds);
    push_text(&mut out, ".");
    if thousandths < 10 {
        push_text(&mut out, "00");
    } else if thousandths < 100 {
        push_text(&mut out, "0");
    }
    push_decimal(&mut out, thousandths);
    proof {
        assert(out@ == clock_text(millis));
    }
    out
}

} // verus!
