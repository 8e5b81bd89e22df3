//! Reads of the local wall clock, through chrono.

use vstd::prelude::*;

verus! {

/// The strftime pattern of the calendar date in a log file's name.
pub const DATE_PATTERN: &'static str = "%d-%m-%Y";

/// Whether chrono can render a strftime pattern: it fails only on a pattern
/// that holds an unrecognised specifier, whatever the time.
pub uninterp spec fn renders(pattern: Seq<char>) -> bool;

pub open spec fn is_digit(c: char) -> bool {
    '0' <= c && c <= '9'
}

/// The number written by the first two characters of `s`.
pub open spec fn leading_day(s: Seq<char>) -> int {
    (s[0] as int - '0' as int) * 10 + (s[1] as int - '0' as int)
}

/// `s` opens with a day of the month, zero-padded to two digits: 01 to 31.
pub open spec fn opens_with_day(s: Seq<char>) -> bool {
    &&& s.len() >= 2
    &&& is_digit(s[0])
    &&& is_digit(s[1])
    &&& 1 <= leading_day(s) <= 31
}

/// Relies on `chrono::Local::now` and `DateTime::format`: the local time now,
/// rendered with a strftime pattern, or `None` where chrono cannot render the
/// pattern. `DelayedFormat::write_to` fails only on an unrecognised
/// specifier, and `%d` renders the day of the month as two digits, 01 to 31.
#[verifier::external_body]
pub(crate) fn local_time(pattern: &str) -> (r: Option<String>)
    ensures
        r is Some <==> renders(pattern@),
        pattern@ == DATE_PATTERN@ ==> (r is Some && opens_with_day(r->0@)),
{
    let mut s = String::new();
    match chrono::Local::now().format(pattern).write_to(&mut s) {
        Ok(()) => Some(s),
        Err(_) => None,
    }
}

/// The day of the month that a rendered date opens with.
pub fn day_of_date(date: &str) -> (r: u32)
    requires
        opens_with_day(date@),
    ensures
        r as int == leading_day(date@),
{
    let tens = date.get_char(0);
    let ones = date.get_char(1);
    (tens as u32 - '0' as u32) * 10 + (ones as u32 - '0' as u32)
}

} // verus!
