//! Instants of the proleptic Gregorian calendar in UTC, to the second.

use vstd::prelude::*;

verus! {

/// The earliest year that an instant can lie in.
pub const MIN_YEAR: i32 = -262_143;

/// The latest year that an instant can lie in.
pub const MAX_YEAR: i32 = 262_142;

/// A calendar date and a time of day, as mathematical integers.
pub struct Moment {
    pub year: int,
    pub month: int,
    pub day: int,
    pub hour: int,
    pub minute: int,
    pub second: int,
}

/// Whether `year` has a 29th of February: every fourth year, but of the
/// years that end a century only every fourth. Year 0 is a leap year and the
/// rule runs on unchanged before it.
pub open spec fn is_leap_year(year: int) -> bool {
    year % 4 == 0 && (year % 100 != 0 || year % 400 == 0)
}

/// The number of days of `month` in `year`; 0 where `month` is no month.
pub open spec fn days_in_month(year: int, month: int) -> int {
    if month == 4 || month == 6 || month == 9 || month == 11 {
        30
    } else if month == 2 {
        if is_leap_year(year) {
            29
        } else {
            28
        }
    } else if 1 <= month <= 12 {
        31
    } else {
        0
    }
}

impl Moment {
    /// Whether the date exists in the calendar, within the years that an
    /// instant can lie in, and the time exists on a clock without leap
    /// seconds.
    pub open spec fn valid(self) -> bool {
        &&& MIN_YEAR <= self.year <= MAX_YEAR
        &&& 1 <= self.month <= 12
        &&& 1 <= self.day <= days_in_month(self.year, self.month)
        &&& 0 <= self.hour <= 23
        &&& 0 <= self.minute <= 59
        &&& 0 <= self.second <= 59
    }
}

/// The moment with the given fields.
pub open spec fn moment_of(
    year: int,
    month: int,
    day: int,
    hour: int,
    minute: int,
    second: int,
) -> Moment {
    Moment { year, month, day, hour, minute, second }
}

/// Tells whether `year` is a leap year.
pub fn leap_year(year: i32) -> (b: bool)
    ensures
        b == is_leap_year(year as int),
{
    year % 4 == 0 && (year % 100 != 0 || year % 400 == 0)
}

/// The number of days of `month` in `year`; 0 where `month` is no month.
pub fn month_length(year: i32, month: u32) -> (n: u32)
    ensures
        n == days_in_month(year as int, month as int),
{
    if month == 4 || month == 6 || month == 9 || month == 11 {
        30
    } else if month == 2 {
        if leap_year(year) {
            29
        } else {
            28
        }
    } else if 1 <= month && month <= 12 {
        31
    } else {
        0
    }
}

/// Reads the clock with chrono: calls `Utc::now`, and takes from the
/// `DateTime<Utc>` that it returns the year, month and day (`Datelike`) and
/// the hour, minute and second (`Timelike`).
///
/// Trusted, not proved: whatever the clock shows, the six numbers are a date
/// that exists in the calendar, within the years that chrono can hold, and a
/// time of day with the second below 60 (chrono keeps a leap second out of
/// `second`). Which moment it is depends on the clock, so nothing more is
/// said. Chrono panics where the system's clock stands before 1970.
#[verifier::external_body]
fn read_utc_clock() -> (r: (i32, u32, u32, u32, u32, u32))
    ensures
        moment_of(
            r.0 as int,
            r.1 as int,
            r.2 as int,
            r.3 as int,
            r.4 as int,
            r.5 as int,
        ).valid(),
{
    let now = chrono::Utc::now();
    (
        chrono::Datelike::year(&now),
        chrono::Datelike::month(&now),
        chrono::Datelike::day(&now),
        chrono::Timelike::hour(&now),
        chrono::Timelike::minute(&now),
        chrono::Timelike::second(&now),
    )
}

/// An instant of UTC, to the second. Every value is a moment that exists.
#[derive(Clone, Copy, Debug)]
pub struct UtcInstant {
    pub(crate) year: i32,
    pub(crate) month: u32,
    pub(crate) day: u32,
    pub(crate) hour: u32,
    pub(crate) minute: u32,
    pub(crate) second: u32,
}

impl View for UtcInstant {
    type V = Moment;

    closed spec fn view(&self) -> Moment {
        moment_of(
            self.year as int,
            self.month as int,
            self.day as int,
            self.hour as int,
            self.minute as int,
            self.second as int,
        )
    }
}

impl UtcInstant {
    /// What holds of every instant: its moment exists.
    #[verifier::type_invariant]
    pub open spec fn exists_in_calendar(self) -> bool {
        self@.valid()
    }

    /// The instant with the given fields, where they name a moment that
    /// exists, and nothing where they do not.
    pub fn new(year: i32, month: u32, day: u32, hour: u32, minute: u32, second: u32) -> (r: Option<
        UtcInstant,
    >)
        ensures
            r is Some <==> moment_of(
                year as int,
                month as int,
                day as int,
                hour as int,
                minute as int,
                second as int,
            ).valid(),
            r is Some ==> r.unwrap()@ == moment_of(
                year as int,
                month as int,
                day as int,
                hour as int,
                minute as int,
                second as int,
            ),
    {
        if MIN_YEAR <= year && year <= MAX_YEAR && 1 <= month && month <= 12 && 1 <= day && day
            <= month_length(year, month) && hour <= 23 && minute <= 59 && second <= 59 {
            Some(UtcInstant { year, month, day, hour, minute, second })
        } else {
            None
        }
    }

    /// The instant that the system's clock shows, in UTC. Nothing is known of
    /// it but that it exists.
    pub fn now() -> (r: UtcInstant)
        ensures
            r@.valid(),
    {
        let (year, month, day, hour, minute, second) = read_utc_clock();
        UtcInstant { year, month, day, hour, minute, second }
    }

    /// The year.
    pub fn year(&self) -> (y: i32)
        ensures
            y == self@.year,
    {
        self.year
    }

    /// The month, from 1.
    pub fn month(&self) -> (m: u32)
        ensures
            m == self@.month,
    {
        self.month
    }

    /// The day of the month, from 1.
    pub fn day(&self) -> (d: u32)
        ensures
            d == self@.day,
    {
        self.day
    }

    /// The hour of the day, from 0.
    pub fn hour(&self) -> (h: u32)
        ensures
            h == self@.hour,
    {
        self.hour
    }

    /// The minute of the hour, from 0.
    pub fn minute(&self) -> (m: u32)
        ensures
            m == self@.minute,
    {
        self.minute
    }

    /// The second of the minute, from 0.
    pub fn second(&self) -> (s: u32)
        ensures
            s == self@.second,
    {
        self.second
    }
}

} // verus!
