//! Date and time patterns: the part of chrono's `strftime` syntax that this
//! crate writes, and the text that chrono gives for it.

use crate::calendar::{Moment, UtcInstant};
use crate::digits::zero_padded;
use vstd::prelude::*;

verus! {

/// Whether `letter`, behind a `%`, asks for one of the six numbers of a
/// moment.
pub open spec fn is_field_letter(letter: char) -> bool {
    letter == 'Y' || letter == 'm' || letter == 'd' || letter == 'H' || letter == 'M' || letter
        == 'S'
}

/// The text of a year: four digits or more, zero-padded; outside 0 to 9999
/// with its sign in front.
pub open spec fn year_text(year: int) -> Seq<char> {
    if 0 <= year <= 9999 {
        zero_padded(year as nat, 4)
    } else if year < 0 {
        seq!['-'] + zero_padded((-year) as nat, 4)
    } else {
        seq!['+'] + zero_padded(year as nat, 4)
    }
}

/// The text that stands for `%` and `letter`: the year, or one of the other
/// five numbers zero-padded to two digits.
pub open spec fn field_text(letter: char, m: Moment) -> Seq<char> {
    if letter == 'Y' {
        year_text(m.year)
    } else if letter == 'm' {
        zero_padded(m.month as nat, 2)
    } else if letter == 'd' {
        zero_padded(m.day as nat, 2)
    } else if letter == 'H' {
        zero_padded(m.hour as nat, 2)
    } else if letter == 'M' {
        zero_padded(m.minute as nat, 2)
    } else {
        zero_padded(m.second as nat, 2)
    }
}

/// Whether `pattern`, read from index `at`, holds nothing but characters
/// that stand for themselves and `%` with a field letter behind it.
pub open spec fn is_plain_from(pattern: Seq<char>, at: int) -> bool
    decreases pattern.len() - at,
{
    if at >= pattern.len() {
        true
    } else if pattern[at] == '%' {
        &&& at + 1 < pattern.len()
        &&& is_field_letter(pattern[at + 1])
        &&& is_plain_from(pattern, at + 2)
    } else {
        is_plain_from(pattern, at + 1)
    }
}

/// Whether all of `pattern` is plain.
pub open spec fn is_plain(pattern: Seq<char>) -> bool {
    is_plain_from(pattern, 0)
}

/// The text of `m` under a plain `pattern`, read from index `at`: each field
/// gives its number, every other character itself.
pub open spec fn rendered_from(pattern: Seq<char>, at: int, m: Moment) -> Seq<char>
    decreases pattern.len() - at,
{
    if at >= pattern.len() {
        Seq::empty()
    } else if pattern[at] == '%' && at + 1 < pattern.len() {
        field_text(pattern[at + 1], m) + rendered_from(pattern, at + 2, m)
    } else {
        seq![pattern[at]] + rendered_from(pattern, at + 1, m)
    }
}

/// The text of `m` under a plain `pattern`.
pub open spec fn rendered(pattern: Seq<char>, m: Moment) -> Seq<char> {
    rendered_from(pattern, 0, m)
}

/// Formats an instant with chrono: builds the `DateTime<Utc>` of the
/// instant's fields (`TimeZone::with_ymd_and_hms` on `Utc`), and calls
/// `DateTime::format` with `pattern` and `to_string` on what it returns.
///
/// Trusted, not proved: for a plain pattern chrono writes each character
/// but `%` as it stands, `%Y` as the year zero-padded to four digits, with a
/// sign where the year is not within 0 to 9999, and `%m`, `%d`, `%H`, `%M`,
/// `%S` as month, day, hour, minute and second, each zero-padded to two
/// digits. The moment must exist, or the instant cannot be built; the
/// pattern must be plain, or the contract says nothing of the result (and
/// chrono panics on a pattern that it cannot read).
#[verifier::external_body]
pub(crate) fn format_instant(t: &UtcInstant, pattern: &str) -> (r: String)
    requires
        t@.valid(),
        is_plain(pattern@),
    ensures
        r@ == rendered(pattern@, t@),
{
    let utc = chrono::Utc;
    let built = chrono::TimeZone::with_ymd_and_hms(
        &utc,
        t.year,
        t.month,
        t.day,
        t.hour,
        t.minute,
        t.second,
    );
    built.unwrap().format(pattern).to_string()
}

} // verus!
