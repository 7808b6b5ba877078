//! The time label of a report line, rendered from a clock reading by chrono.

use std::fmt::Write;
use vstd::prelude::*;
use crate::decimal::digit_char;

verus! {

/// Whether hour, minute, second and nanosecond make a time of day; a nanosecond
/// part of one second or more stands for a leap second and is allowed only at second 59.
pub open spec fn valid_clock(hour: u32, minute: u32, second: u32, nano: u32) -> bool {
    &&& hour < 24
    &&& minute < 60
    &&& second < 60
    &&& nano < 2_000_000_000
    &&& (nano >= 1_000_000_000 ==> second == 59)
}

/// What chrono renders for the time of day `hour:minute:second.nano` under a
/// strftime `pattern`, or `None` where it renders nothing.
pub uninterp spec fn clock_text(hour: u32, minute: u32, second: u32, nano: u32, pattern: Seq<char>) -> Option<Seq<char>>;

/// The two-digit, zero-padded decimal text of a number below 100.
pub open spec fn two_digits(n: nat) -> Seq<char> {
    seq![digit_char(n / 10), digit_char(n % 10)]
}

/// The time label for a valid clock reading: a literal `%H:`, the minute, `:`,
/// and the second, each in two digits; a leap second shows as second 60.
pub open spec fn label_text(minute: u32, second: u32, nano: u32) -> Seq<char> {
    seq!['%', 'H', ':'] + two_digits(minute as nat) + seq![':'] + two_digits(
        (second + nano / 1_000_000_000) as nat,
    )
}

/// Calls chrono's `NaiveTime::from_hms_nano_opt` and then writes
/// `NaiveTime::format(pattern)` into a string. Claimed: the result is the named
/// rendering `clock_text` of the arguments, and it is `None` for a time of day
/// that `from_hms_nano_opt` rejects (its source returns `None` exactly outside
/// `valid_clock`). For the label pattern `%%H:%M:%S` and a valid time of day,
/// the text is `label_text`: chrono parses `%%` as a literal `%`, and writes
/// `%M` and `%S` as two zero-padded digits, the second plus one for a leap
/// second. Not claimed: what text other patterns render, nor for which of them
/// the write fails.
#[verifier::external_body]
fn format_clock(hour: u32, minute: u32, second: u32, nano: u32, pattern: &str) -> (text: Option<String>)
    ensures
        text is Some <==> clock_text(hour, minute, second, nano, pattern@) is Some,
        text matches Some(t) ==> t@ == clock_text(hour, minute, second, nano, pattern@)->0,
        !valid_clock(hour, minute, second, nano) ==> text is None,
        valid_clock(hour, minute, second, nano) && pattern@ == label_pattern() ==> {
            &&& text is Some
            &&& text->0@ == label_text(minute, second, nano)
        },
{
    match chrono::NaiveTime::from_hms_nano_opt(hour, minute, second, nano) {
        Some(t) => {
            let mut s = String::new();
            match write!(s, "{}", t.format(pattern)) {
                Ok(()) => Some(s),
                Err(_) => None,
            }
        },
        None => None,
    }
}

/// The strftime pattern of the time label: `%%` is a literal percent sign, so
/// the label reads `%H:` followed by the minute and the second.
pub open spec fn label_pattern() -> Seq<char> {
    seq!['%', '%', 'H', ':', '%', 'M', ':', '%', 'S']
}

/// The time label of a report line for the local time of day
/// `hour:minute:second.nano`.
pub fn time_label(hour: u32, minute: u32, second: u32, nano: u32) -> (label: Option<String>)
    ensures
        label is Some <==> clock_text(hour, minute, second, nano, label_pattern()) is Some,
        label matches Some(l) ==> l@ == clock_text(hour, minute, second, nano, label_pattern())->0,
        !valid_clock(hour, minute, second, nano) ==> label is None,
        valid_clock(hour, minute, second, nano) ==> {
            &&& label is Some
            &&& label->0@ == label_text(minute, second, nano)
        },
{
    let pattern = "%%H:%M:%S";
    proof {
        reveal_strlit("%%H:%M:%S");
    }
    assert(pattern@ =~= label_pattern());
    format_clock(hour, minute, second, nano, pattern)
}

} // verus!
