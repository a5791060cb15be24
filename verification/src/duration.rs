//! The line that reports how long a scrape took.
//!
//! Times are counted in whole milliseconds; the line gives seconds with five
//! decimal places, so the last two of them are always zero.

use vstd::prelude::*;
use crate::name::namespace;

verus! {

/// The character for a digit below ten.
pub open spec fn digit_char(digit: nat) -> char
    recommends
        digit < 10,
{
    (('0' as u8) + digit) as char
}

/// The number written in decimal digits, without leading zeros.
pub open spec fn decimal(number: nat) -> Seq<char>
    decreases number,
{
    if number < 10 {
        seq![digit_char(number)]
    } else {
        decimal(number / 10).push(digit_char(number % 10))
    }
}

/// The three decimal digits of a number below a thousand.
pub open spec fn three_digits(number: nat) -> Seq<char>
    recommends
        number < 1000,
{
    seq![digit_char(number / 100), digit_char(number / 10 % 10), digit_char(number % 10)]
}

/// A time in milliseconds written as seconds with five decimal places, with
/// a minus sign in front where it is below zero.
pub open spec fn seconds_text(millis: int) -> Seq<char> {
    let size: nat = if millis < 0 {
        (-millis) as nat
    } else {
        millis as nat
    };
    let sign = if millis < 0 {
        "-"@
    } else {
        Seq::<char>::empty()
    };
    sign + decimal(size / 1000) + "."@ + three_digits(size % 1000) + "00"@
}

/// The line for a scrape that took `millis` milliseconds.
pub open spec fn duration_text(millis: int) -> Seq<char> {
    namespace() + "_scrape_duration_seconds "@ + seconds_text(millis) + "\n"@
}

fn digit_of(digit: u64) -> (c: char)
    requires
        digit < 10,
    ensures
        c == digit_char(digit as nat),
{
    (48u8 + (digit as u8)) as char
}

/// Appends the decimal digits of `number` to `out`.
fn push_decimal(number: u64, out: &mut String)
    ensures
        final(out)@ == old(out)@ + decimal(number as nat),
    decreases number,
{
    if number >= 10 {
        push_decimal(number / 10, out);
    }
    out.push(digit_of(number % 10));
    proof {
        assert(out@ =~= old(out)@ + decimal(number as nat));
    }
}

/// The line `ldap_scrape_duration_seconds` with the time between two clock
/// readings, both in milliseconds, written as seconds with five decimal
/// places. A clock that went backwards gives a time below zero.
pub fn duration_line(start_ms: i64, end_ms: i64) -> (line: String)
    ensures
        line@ == duration_text(end_ms - start_ms),
{
    let elapsed: i128 = (end_ms as i128) - (start_ms as i128);
    let size: u64 = if elapsed < 0 {
        (-elapsed) as u64
    } else {
        elapsed as u64
    };
    let mut line = String::from_str("ldap");
    line.append("_scrape_duration_seconds ");
    if elapsed < 0 {
        line.append("-");
    }
    let ghost head = line@;
    push_decimal(size / 1000, &mut line);
    line.append(".");
    let rest: u64 = size % 1000;
    line.push(digit_of(rest / 100));
    line.push(digit_of(rest / 10 % 10));
    line.push(digit_of(rest % 10));
    line.append("00");
    line.append("\n");
    proof {
        let millis: int = end_ms - start_ms;
        let sign = if millis < 0 {
            "-"@
        } else {
            Seq::<char>::empty()
        };
        assert(head =~= namespace() + "_scrape_duration_seconds "@ + sign);
        assert(line@ =~= head + decimal((size / 1000) as nat) + "."@ + three_digits(rest as nat)
            + "00"@ + "\n"@);
        assert(line@ =~= duration_text(millis));
    }
    line
}

} // verus!
