//! The wall clock, as the log shows it.

use vstd::prelude::*;

verus! {

/// The pattern of the time stamps that start the controller's own log lines:
/// year, month and day, then hour, minute and second, in square brackets.
pub const STAMP_PATTERN: &'static str = "[%Y.%m.%d-%H:%M:%S]";

/// Whether `c` is one of the ten decimal digits.
pub open spec fn is_digit(c: char) -> bool {
    c == '0' || c == '1' || c == '2' || c == '3' || c == '4' || c == '5' || c == '6' || c == '7'
        || c == '8' || c == '9'
}

/// Whether two decimal digits stand in `text` at position `at`.
pub open spec fn two_digits_at(text: Seq<char>, at: int) -> bool {
    is_digit(text[at]) && is_digit(text[at + 1])
}

/// The time stamp of this moment, such as `[2024.05.17-09:30:00]`: the local
/// time, written out in the stamp pattern. Which moment it shows lies with
/// the clock and the machine's time zone, so two calls may differ; its
/// shape is that of every time stamp, with the year first and the second
/// last.
pub fn now_stamp() -> (stamp: String)
    ensures
        is_stamp(stamp@),
{
    local_time_text(STAMP_PATTERN)
}

/// Whether `text` is a year as a time stamp shows it: four digits, or, for a
/// year before 0 or after 9999, a sign and at least four digits.
pub open spec fn is_year(text: Seq<char>) -> bool {
    if text.len() == 4 {
        forall|i: int| 0 <= i < 4 ==> is_digit(#[trigger] text[i])
    } else {
        &&& text.len() >= 5
        &&& text[0] == '+' || text[0] == '-'
        &&& forall|i: int| 1 <= i < text.len() ==> is_digit(#[trigger] text[i])
    }
}

/// Whether `text` has the shape of a time stamp: an opening bracket, the
/// year, a dot, the month, a dot, the day, a hyphen, the hour, a colon, the
/// minute, a colon, the second and a closing bracket, where all but the year
/// have two digits, as in `[2024.05.17-09:30:00]`.
pub open spec fn is_stamp(text: Seq<char>) -> bool {
    let rest = text.len() - 16;
    &&& text.len() >= 21
    &&& text[0] == '['
    &&& is_year(text.subrange(1, rest))
    &&& text[rest] == '.'
    &&& two_digits_at(text, rest + 1)
    &&& text[rest + 3] == '.'
    &&& two_digits_at(text, rest + 4)
    &&& text[rest + 6] == '-'
    &&& two_digits_at(text, rest + 7)
    &&& text[rest + 9] == ':'
    &&& two_digits_at(text, rest + 10)
    &&& text[rest + 12] == ':'
    &&& two_digits_at(text, rest + 13)
    &&& text[rest + 15] == ']'
}

/// Reads the local time with `chrono::Local::now` and writes it out through
/// `DateTime::format` with the stamp pattern, which is all that this accepts,
/// since turning the formatted time into text panics on a pattern that
/// chrono cannot read. Which moment the text shows depends on the clock and
/// on the machine's time zone, and nothing is claimed of it. What is claimed
/// is the shape that chrono documents for the pattern's parts: it copies the
/// brackets, dots, hyphen and colons, pads month, day, hour, minute and
/// second with zeros to two digits, and pads the year with zeros to four
/// digits, putting a sign before a year that is negative or has more than
/// four. On a machine whose clock stands before the year 1970 chrono panics
/// when it reads the time, which no argument can prevent.
#[verifier::external_body]
fn local_time_text(pattern: &str) -> (text: String)
    requires
        pattern@ == STAMP_PATTERN@,
    ensures
        is_stamp(text@),
{
    chrono::Local::now().format(pattern).to_string()
}

} // verus!
