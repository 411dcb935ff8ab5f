//! The texts that describe the current configuration to the user.

use std::time::Duration;
use vstd::prelude::*;
use vstd::string::StringExecFns;

use crate::controller::{Delays, Distances};
use crate::settings::duration_millis;

verus! {

/// The character of a decimal digit.
pub open spec fn digit_char(d: int) -> char {
    if d == 0 {
        '0'
    } else if d == 1 {
        '1'
    } else if d == 2 {
        '2'
    } else if d == 3 {
        '3'
    } else if d == 4 {
        '4'
    } else if d == 5 {
        '5'
    } else if d == 6 {
        '6'
    } else if d == 7 {
        '7'
    } else if d == 8 {
        '8'
    } else {
        '9'
    }
}

/// The decimal digits of a natural number, most significant first, without
/// leading zeros.
pub open spec fn digits(n: nat) -> Seq<char>
    decreases n,
{
    if n < 10 {
        seq![digit_char(n as int)]
    } else {
        digits(n / 10).push(digit_char((n % 10) as int))
    }
}

/// A number in decimal, with a minus sign in front when it is negative.
pub open spec fn decimal(n: int) -> Seq<char> {
    if n < 0 {
        seq!['-'] + digits((-n) as nat)
    } else {
        digits(n as nat)
    }
}

/// The plural ending for a count.
pub open spec fn plural(n: int) -> Seq<char> {
    if n == 1 {
        Seq::empty()
    } else {
        seq!['s']
    }
}

/// The quotient rounded toward zero, for a positive divisor.
pub open spec fn quotient(a: int, b: int) -> int {
    if a >= 0 {
        a / b
    } else {
        -((-a) / b)
    }
}

/// The text for an interval of `millis` milliseconds. The four delays of
/// the menu have fixed texts. Any other is given in whole seconds below one
/// minute, and in minutes and seconds from there on.
pub open spec fn interval_label(millis: int) -> Seq<char> {
    match Delays::of_millis(millis) {
        Delays::ThirtySeconds => "30 seconds"@,
        Delays::OneMinute => "1 minute"@,
        Delays::TwoMinutes => "2 minutes"@,
        Delays::FiveMinutes => "5 minutes"@,
        Delays::Custom => {
            let seconds = quotient(millis, 1000);
            if seconds < 60 {
                decimal(seconds) + " second"@ + plural(seconds) + " (Custom)"@
            } else if seconds % 60 == 0 {
                decimal(seconds / 60) + " minutes (Custom)"@
            } else {
                decimal(seconds / 60) + " minute"@ + plural(seconds / 60) + " and "@ + decimal(
                    seconds % 60,
                ) + " second"@ + plural(seconds % 60) + " (Custom)"@
            }
        },
    }
}

/// The text for a pair of maximum distances.
pub open spec fn distance_label(max_x: int, max_y: int) -> Seq<char> {
    match Distances::of_distance(max_x, max_y) {
        Distances::Small => "25 px (Small)"@,
        Distances::Medium => "50 px (Medium)"@,
        Distances::Large => "100 px (Large)"@,
        Distances::Custom => decimal(max_x) + " px (x) "@ + decimal(max_y) + " px (y) (Custom)"@,
    }
}

/// The tooltip of the tray icon.
pub open spec fn tooltip_text(running: bool, millis: int, max_x: int, max_y: int) -> Seq<char> {
    "OLEDShift\nStatus: "@ + (if running {
        "running"@
    } else {
        "paused"@
    }) + "\nDelay: "@ + interval_label(millis) + "\nMax distance: "@ + distance_label(max_x, max_y)
}

fn digit_str(d: u64) -> (s: &'static str)
    requires
        d < 10,
    ensures
        s@ == seq![digit_char(d as int)],
{
    proof {
        reveal_strlit("0");
        reveal_strlit("1");
        reveal_strlit("2");
        reveal_strlit("3");
        reveal_strlit("4");
        reveal_strlit("5");
        reveal_strlit("6");
        reveal_strlit("7");
        reveal_strlit("8");
        reveal_strlit("9");
    }
    let s = if d == 0 {
        "0"
    } else if d == 1 {
        "1"
    } else if d == 2 {
        "2"
    } else if d == 3 {
        "3"
    } else if d == 4 {
        "4"
    } else if d == 5 {
        "5"
    } else if d == 6 {
        "6"
    } else if d == 7 {
        "7"
    } else if d == 8 {
        "8"
    } else {
        "9"
    };
    assert(s@ =~= seq![digit_char(d as int)]);
    s
}

fn append_digits(out: &mut String, n: u64)
    ensures
        final(out)@ == old(out)@ + digits(n as nat),
    decreases n,
{
    if n >= 10 {
        append_digits(out, n / 10);
    }
    let ghost mid = out@;
    out.append(digit_str(n % 10));
    proof {
        if n >= 10 {
            assert(out@ =~= old(out)@ + digits((n / 10) as nat).push(
                digit_char((n % 10) as int),
            ));
        }
    }
}

/// Appends a number in decimal.
pub fn append_decimal(out: &mut String, n: i32)
    ensures
        final(out)@ == old(out)@ + decimal(n as int),
{
    let wide: i64 = n as i64;
    if wide < 0 {
        proof {
            reveal_strlit("-");
            assert("-"@ =~= seq!['-']);
        }
        out.append("-");
        append_digits(out, (-wide) as u64);
        assert(out@ =~= old(out)@ + decimal(n as int));
    } else {
        append_digits(out, wide as u64);
    }
}

fn append_plural(out: &mut String, n: i32)
    ensures
        final(out)@ == old(out)@ + plural(n as int),
{
    if n != 1 {
        proof {
            reveal_strlit("s");
            assert("s"@ =~= seq!['s']);
        }
        out.append("s");
    } else {
        assert(out@ + Seq::<char>::empty() =~= out@);
    }
}

/// Formats an interval of `millis` milliseconds into a human readable
/// string.
pub fn format_millis(millis: i32) -> (s: String)
    ensures
        s@ == interval_label(millis as int),
{
    match Delays::from_millis(millis) {
        Delays::ThirtySeconds => {
            return "30 seconds".to_owned();
        },
        Delays::OneMinute => {
            return "1 minute".to_owned();
        },
        Delays::TwoMinutes => {
            return "2 minutes".to_owned();
        },
        Delays::FiveMinutes => {
            return "5 minutes".to_owned();
        },
        _ => {},
    }
    let seconds: i32 = millis / 1000;
    let mut out = String::new();
    assert(out@ + decimal(seconds as int) =~= decimal(seconds as int));
    if seconds < 60 {
        append_decimal(&mut out, seconds);
        out.append(" second");
        append_plural(&mut out, seconds);
        out.append(" (Custom)");
        return out;
    }
    let minutes: i32 = seconds / 60;
    let rest: i32 = seconds % 60;
    assert(out@ + decimal(minutes as int) =~= decimal(minutes as int));
    if rest == 0 {
        append_decimal(&mut out, minutes);
        out.append(" minutes (Custom)");
        return out;
    }
    append_decimal(&mut out, minutes);
    out.append(" minute");
    append_plural(&mut out, minutes);
    out.append(" and ");
    append_decimal(&mut out, rest);
    out.append(" second");
    append_plural(&mut out, rest);
    out.append(" (Custom)");
    out
}

/// Formats an interval into a human readable string. The interval is read
/// in milliseconds as a 32-bit number.
pub fn format_interval(duration: Duration) -> (s: String)
    ensures
        s@ == interval_label((duration_millis(duration) as i32) as int),
{
    let millis: u128 = duration.as_millis();
    format_millis(#[verifier::truncate] (millis as i32))
}

/// Formats the distance into a human readable string.
pub fn format_distance(max_x: i32, max_y: i32) -> (s: String)
    ensures
        s@ == distance_label(max_x as int, max_y as int),
{
    match Distances::from_distance(max_x, max_y) {
        Distances::Small => {
            return "25 px (Small)".to_owned();
        },
        Distances::Medium => {
            return "50 px (Medium)".to_owned();
        },
        Distances::Large => {
            return "100 px (Large)".to_owned();
        },
        _ => {},
    }
    let mut out = String::new();
    assert(out@ + decimal(max_x as int) =~= decimal(max_x as int));
    append_decimal(&mut out, max_x);
    out.append(" px (x) ");
    append_decimal(&mut out, max_y);
    out.append(" px (y) (Custom)");
    out
}

/// The tooltip of the tray icon: status, delay and maximum distance.
pub fn format_tooltip(running: bool, interval: Duration, max_x: i32, max_y: i32) -> (s: String)
    ensures
        s@ == tooltip_text(
            running,
            (duration_millis(interval) as i32) as int,
            max_x as int,
            max_y as int,
        ),
{
    let mut out = "OLEDShift\nStatus: ".to_owned();
    if running {
        out.append("running");
    } else {
        out.append("paused");
    }
    out.append("\nDelay: ");
    let delay = format_interval(interval);
    out.append(delay.as_str());
    out.append("\nMax distance: ");
    let distance = format_distance(max_x, max_y);
    out.append(distance.as_str());
    out
}

} // verus!
