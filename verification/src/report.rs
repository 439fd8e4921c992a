//! The line of text that reports what is done with one monitor.

use crate::outcome::{Decision, SkipReason};
use vstd::prelude::*;

verus! {

/// The ten decimal digits, by value.
pub open spec fn digits() -> Seq<char> {
    seq!['0', '1', '2', '3', '4', '5', '6', '7', '8', '9']
}

/// The decimal numeral of `n`, without sign or leading zeros.
pub open spec fn decimal(n: nat) -> Seq<char>
    decreases n,
{
    if n < 10 {
        seq![digits()[n as int]]
    } else {
        decimal(n / 10).push(digits()[(n % 10) as int])
    }
}

/// The line for the monitor at `index` with identifier `id`, given the
/// verdict on it. An application is announced with the identifier; a skip
/// names its reason.
pub open spec fn report(verdict: Decision, index: u32, id: Seq<char>) -> Seq<char> {
    match verdict {
        Decision::Apply => "Setting wallpaper on monitor "@ + decimal(index as nat) + ": "@ + id,
        Decision::Skip(SkipReason::EmptyId) => "Monitor "@ + decimal(index as nat)
            + ": Skipped (empty ID)"@,
        Decision::Skip(SkipReason::NoMatch) => "Monitor "@ + decimal(index as nat)
            + ": Skipped (no match)"@,
    }
}

fn digit_str(d: u32) -> (s: &'static str)
    requires
        d < 10,
    ensures
        s@ == seq![digits()[d as int]],
{
    proof {
        reveal_strlit("0");
        reveal_strlit("1");
        reveal_strlit("2");
        reveal_strlit("3");
        reveal_strlit("4");
        reveal_strlit("5");
        reveal_strlit("6");
        reveal_strlit("7");
        reveal_strlit("8");
        reveal_strlit("9");
    }
    let s = match d {
        0 => "0",
        1 => "1",
        2 => "2",
        3 => "3",
        4 => "4",
        5 => "5",
        6 => "6",
        7 => "7",
        8 => "8",
        _ => "9",
    };
    assert(s@ =~= seq![digits()[d as int]]);
    s
}

/// Appends the decimal numeral of `n` to `out`.
pub fn push_decimal(out: &mut String, n: u32)
    ensures
        final(out)@ == old(out)@ + decimal(n as nat),
    decreases n,
{
    if n >= 10 {
        push_decimal(out, n / 10);
    }
    out.append(digit_str(n % 10));
    assert(final(out)@ =~= old(out)@ + decimal(n as nat));
}

/// Writes the line that reports `verdict` on the monitor at `index`.
pub fn report_line(verdict: Decision, index: u32, id: &str) -> (line: String)
    ensures
        line@ == report(verdict, index, id@),
{
    match verdict {
        Decision::Apply => {
            let mut line = String::from_str("Setting wallpaper on monitor ");
            push_decimal(&mut line, index);
            line.append(": ");
            line.append(id);
            line
        },
        Decision::Skip(reason) => {
            let mut line = String::from_str("Monitor ");
            push_decimal(&mut line, index);
            match reason {
                SkipReason::EmptyId => line.append(": Skipped (empty ID)"),
                SkipReason::NoMatch => line.append(": Skipped (no match)"),
            }
            line
        },
    }
}

} // verus!
