//! The prefix of a log line, `[YYYY-MM-DD] - [HH:MM-SS]`, and the date in a
//! log file's name, `YYYY-MM-DD`.

use crate::calendar::{Moment, UtcInstant};
use crate::digits::{all_digits, lemma_four_places, lemma_two_places, zero_padded};
use crate::strftime::{format_instant, is_plain, is_plain_from, rendered, rendered_from, year_text};
use vstd::prelude::*;

verus! {

/// The date of `m`: year, month and day, joined by hyphens.
pub open spec fn date_text(m: Moment) -> Seq<char> {
    year_text(m.year) + seq!['-'] + zero_padded(m.month as nat, 2) + seq!['-'] + zero_padded(
        m.day as nat,
        2,
    )
}

/// The time of `m`: hour, a colon, minute, a hyphen, second.
pub open spec fn time_text(m: Moment) -> Seq<char> {
    zero_padded(m.hour as nat, 2) + seq![':'] + zero_padded(m.minute as nat, 2) + seq!['-']
        + zero_padded(m.second as nat, 2)
}

/// The prefix of a log line: the date and the time, each in square brackets,
/// with ` - ` between them.
pub open spec fn timestamp_text(m: Moment) -> Seq<char> {
    seq!['['] + date_text(m) + seq![']', ' ', '-', ' ', '['] + time_text(m) + seq![']']
}

/// The shape `[dddd-dd-dd] - [dd:dd-dd]`, each `d` a digit: 25 characters.
pub open spec fn has_stamp_shape(s: Seq<char>) -> bool {
    &&& s.len() == 25
    &&& s[0] == '['
    &&& all_digits(s, 1, 5)
    &&& s[5] == '-'
    &&& all_digits(s, 6, 8)
    &&& s[8] == '-'
    &&& all_digits(s, 9, 11)
    &&& s[11] == ']'
    &&& s[12] == ' '
    &&& s[13] == '-'
    &&& s[14] == ' '
    &&& s[15] == '['
    &&& all_digits(s, 16, 18)
    &&& s[18] == ':'
    &&& all_digits(s, 19, 21)
    &&& s[21] == '-'
    &&& all_digits(s, 22, 24)
    &&& s[24] == ']'
}

/// The shape `dddd-dd-dd`, each `d` a digit: 10 characters.
pub open spec fn has_date_shape(s: Seq<char>) -> bool {
    &&& s.len() == 10
    &&& all_digits(s, 0, 4)
    &&& s[4] == '-'
    &&& all_digits(s, 5, 7)
    &&& s[7] == '-'
    &&& all_digits(s, 8, 10)
}

/// The date of every moment that exists in the years 0 to 9999 has the
/// shape `dddd-dd-dd`.
pub proof fn lemma_date_shape(m: Moment)
    requires
        m.valid(),
        0 <= m.year <= 9999,
    ensures
        has_date_shape(date_text(m)),
{
    lemma_four_places(m.year as nat);
    lemma_two_places(m.month as nat);
    lemma_two_places(m.day as nat);
    let year = zero_padded(m.year as nat, 4);
    let month = zero_padded(m.month as nat, 2);
    let day = zero_padded(m.day as nat, 2);
    let s = date_text(m);
    assert(s =~= seq![year[0], year[1], year[2], year[3], '-', month[0], month[1], '-', day[0], day[1]]);
}

/// The prefix of every moment that exists in the years 0 to 9999 has the
/// shape `[dddd-dd-dd] - [dd:dd-dd]`.
pub proof fn lemma_timestamp_shape(m: Moment)
    requires
        m.valid(),
        0 <= m.year <= 9999,
    ensures
        has_stamp_shape(timestamp_text(m)),
{
    lemma_four_places(m.year as nat);
    lemma_two_places(m.month as nat);
    lemma_two_places(m.day as nat);
    lemma_two_places(m.hour as nat);
    lemma_two_places(m.minute as nat);
    lemma_two_places(m.second as nat);
    let year = zero_padded(m.year as nat, 4);
    let month = zero_padded(m.month as nat, 2);
    let day = zero_padded(m.day as nat, 2);
    let hour = zero_padded(m.hour as nat, 2);
    let minute = zero_padded(m.minute as nat, 2);
    let second = zero_padded(m.second as nat, 2);
    let s = timestamp_text(m);
    assert(s =~= seq![
        '[',
        year[0],
        year[1],
        year[2],
        year[3],
        '-',
        month[0],
        month[1],
        '-',
        day[0],
        day[1],
        ']',
        ' ',
        '-',
        ' ',
        '[',
        hour[0],
        hour[1],
        ':',
        minute[0],
        minute[1],
        '-',
        second[0],
        second[1],
        ']',
    ]);
}

/// The prefix of a moment opens with its date in square brackets: the date
/// that names the day's file.
pub proof fn lemma_timestamp_opens_with_date(m: Moment)
    ensures
        date_text(m).len() + 2 <= timestamp_text(m).len(),
        timestamp_text(m).subrange(0, (date_text(m).len() + 2) as int) == seq!['['] + date_text(
            m,
        ) + seq![']'],
{
    let s = timestamp_text(m);
    let n = date_text(m).len() as int;
    assert(s.subrange(0, n + 2) =~= seq!['['] + date_text(m) + seq![']']);
}

/// Where the eight characters `%Y-%m-%d` stand in a pattern, the date's
/// text stands in what the pattern gives, and the pattern is plain there.
proof fn lemma_date_fields(pattern: Seq<char>, at: int, m: Moment)
    requires
        0 <= at,
        at + 8 <= pattern.len(),
        pattern.subrange(at, at + 8) == "%Y-%m-%d"@,
    ensures
        rendered_from(pattern, at, m) == date_text(m) + rendered_from(pattern, at + 8, m),
        is_plain_from(pattern, at) == is_plain_from(pattern, at + 8),
{
    reveal_strlit("%Y-%m-%d");
    let part = pattern.subrange(at, at + 8);
    assert(pattern[at + 0] == part[0] && part[0] == '%');
    assert(pattern[at + 1] == part[1] && part[1] == 'Y');
    assert(pattern[at + 2] == part[2] && part[2] == '-');
    assert(pattern[at + 3] == part[3] && part[3] == '%');
    assert(pattern[at + 4] == part[4] && part[4] == 'm');
    assert(pattern[at + 5] == part[5] && part[5] == '-');
    assert(pattern[at + 6] == part[6] && part[6] == '%');
    assert(pattern[at + 7] == part[7] && part[7] == 'd');
    reveal_with_fuel(is_plain_from, 6);
    reveal_with_fuel(rendered_from, 6);
    assert(rendered_from(pattern, at, m) =~= date_text(m) + rendered_from(pattern, at + 8, m));
}

/// Where the eight characters `%H:%M-%S` stand in a pattern, the time's
/// text stands in what the pattern gives, and the pattern is plain there.
proof fn lemma_time_fields(pattern: Seq<char>, at: int, m: Moment)
    requires
        0 <= at,
        at + 8 <= pattern.len(),
        pattern.subrange(at, at + 8) == "%H:%M-%S"@,
    ensures
        rendered_from(pattern, at, m) == time_text(m) + rendered_from(pattern, at + 8, m),
        is_plain_from(pattern, at) == is_plain_from(pattern, at + 8),
{
    reveal_strlit("%H:%M-%S");
    let part = pattern.subrange(at, at + 8);
    assert(pattern[at + 0] == part[0] && part[0] == '%');
    assert(pattern[at + 1] == part[1] && part[1] == 'H');
    assert(pattern[at + 2] == part[2] && part[2] == ':');
    assert(pattern[at + 3] == part[3] && part[3] == '%');
    assert(pattern[at + 4] == part[4] && part[4] == 'M');
    assert(pattern[at + 5] == part[5] && part[5] == '-');
    assert(pattern[at + 6] == part[6] && part[6] == '%');
    assert(pattern[at + 7] == part[7] && part[7] == 'S');
    reveal_with_fuel(is_plain_from, 6);
    reveal_with_fuel(rendered_from, 6);
    assert(rendered_from(pattern, at, m) =~= time_text(m) + rendered_from(pattern, at + 8, m));
}

/// The pattern of a date is plain and gives the date's text.
proof fn lemma_date_pattern(m: Moment)
    ensures
        is_plain("%Y-%m-%d"@),
        rendered("%Y-%m-%d"@, m) == date_text(m),
{
    let pattern = "%Y-%m-%d"@;
    reveal_strlit("%Y-%m-%d");
    assert(pattern.subrange(0, 8) =~= pattern);
    lemma_date_fields(pattern, 0, m);
    assert(date_text(m) + rendered_from(pattern, 8, m) =~= date_text(m));
}

/// The date of an instant, `YYYY-MM-DD`.
pub fn date_stamp(t: &UtcInstant) -> (r: String)
    ensures
        r@ == date_text(t@),
        0 <= t@.year <= 9999 ==> has_date_shape(r@),
{
    proof {
        use_type_invariant(t);
        lemma_date_pattern(t@);
        if 0 <= t@.year <= 9999 {
            lemma_date_shape(t@);
        }
    }
    format_instant(t, "%Y-%m-%d")
}

/// The pattern of a line's prefix is plain and gives the prefix's text.
proof fn lemma_timestamp_pattern(m: Moment)
    ensures
        is_plain("[%Y-%m-%d] - [%H:%M-%S]"@),
        rendered("[%Y-%m-%d] - [%H:%M-%S]"@, m) == timestamp_text(m),
{
    let pattern = "[%Y-%m-%d] - [%H:%M-%S]"@;
    reveal_strlit("[%Y-%m-%d] - [%H:%M-%S]");
    reveal_strlit("%Y-%m-%d");
    reveal_strlit("%H:%M-%S");
    assert(pattern.subrange(1, 9) =~= "%Y-%m-%d"@);
    assert(pattern.subrange(14, 22) =~= "%H:%M-%S"@);
    lemma_date_fields(pattern, 1, m);
    lemma_time_fields(pattern, 14, m);
    let closing = rendered_from(pattern, 22, m);
    let time_on = rendered_from(pattern, 14, m);
    let between = rendered_from(pattern, 9, m);
    assert(closing =~= seq![']'] && is_plain_from(pattern, 22)) by {
        reveal_with_fuel(is_plain_from, 2);
        reveal_with_fuel(rendered_from, 2);
    }
    assert(between =~= seq![']', ' ', '-', ' ', '['] + time_on && is_plain_from(pattern, 9)
        == is_plain_from(pattern, 14)) by {
        reveal_with_fuel(is_plain_from, 5);
        reveal_with_fuel(rendered_from, 5);
    }
    assert(rendered(pattern, m) =~= timestamp_text(m));
}

/// The prefix of a log line for an instant, `[YYYY-MM-DD] - [HH:MM-SS]`.
pub fn timestamp(t: &UtcInstant) -> (r: String)
    ensures
        r@ == timestamp_text(t@),
        0 <= t@.year <= 9999 ==> has_stamp_shape(r@),
{
    proof {
        use_type_invariant(t);
        lemma_timestamp_pattern(t@);
        if 0 <= t@.year <= 9999 {
            lemma_timestamp_shape(t@);
        }
    }
    format_instant(t, "[%Y-%m-%d] - [%H:%M-%S]")
}

} // verus!
