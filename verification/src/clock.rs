//! The clock and the calendar of the machine.

use crate::text;
use chrono::Datelike;
use vstd::prelude::*;

verus! {

/// What a local time of day looks like: two digits each for hours, minutes and
/// seconds, with colons between.
pub open spec fn time_of_day(s: Seq<char>) -> bool {
    &&& s.len() == 8
    &&& text::is_digit(s[0]) && text::is_digit(s[1]) && s[2] == ':'
    &&& text::is_digit(s[3]) && text::is_digit(s[4]) && s[5] == ':'
    &&& text::is_digit(s[6]) && text::is_digit(s[7])
}

/// `chrono::Local::now`, formatted as `%H:%M:%S`. The time itself is the
/// machine's; only the shape of the text is stated.
#[verifier::external_body]
pub(crate) fn local_time() -> (r: String)
    ensures
        time_of_day(r@),
{
    chrono::Local::now().format("%H:%M:%S").to_string()
}

/// A day of the calendar. The days of the week count from Monday, 0.
#[derive(Debug, Clone, Copy, PartialEq, Eq, Structural)]
pub struct Today {
    pub year: i32,
    pub month: u32,
    pub day: u32,
    pub weekday: u32,
}

impl Today {
    pub open spec fn valid(self) -> bool {
        1 <= self.month <= 12 && 1 <= self.day <= 31 && self.weekday <= 6
    }
}

/// `chrono::Local::now`, taken apart by `Datelike`. The day itself is the
/// machine's; only the ranges of its parts are stated.
#[verifier::external_body]
pub(crate) fn today() -> (r: Today)
    ensures
        r.valid(),
{
    let now = chrono::Local::now();
    Today {
        year: now.year(),
        month: now.month(),
        day: now.day(),
        weekday: now.weekday().num_days_from_monday(),
    }
}

/// Year, month and day a number of days after another day. `None` where the first
/// does not exist or the second is out of the range of `chrono::NaiveDate`.
pub uninterp spec fn date_after(year: i32, month: u32, day: u32, days: i64) -> Option<
    (i32, u32, u32),
>;

/// `chrono::NaiveDate::checked_add_signed` on a day, both given by year, month and
/// day.
#[verifier::external_body]
pub(crate) fn shift_date(year: i32, month: u32, day: u32, days: i64) -> (r: Option<
    (i32, u32, u32),
>)
    ensures
        r == date_after(year, month, day, days),
{
    let start = chrono::NaiveDate::from_ymd_opt(year, month, day)?;
    let date = start.checked_add_signed(chrono::TimeDelta::try_days(days)?)?;
    Some((date.year(), date.month(), date.day()))
}

/// A year in at least four digits, with a sign where it has more or lies before
/// year 0.
pub open spec fn year_text(year: int) -> Seq<char> {
    if year < 0 {
        "-"@ + text::zero_padded(text::dec((-year) as nat), 4)
    } else if year > 9999 {
        "+"@ + text::dec(year as nat)
    } else {
        text::zero_padded(text::dec(year as nat), 4)
    }
}

/// A day as `YYYYMMDD`.
pub open spec fn date_text(date: (i32, u32, u32)) -> Seq<char> {
    year_text(date.0 as int) + text::dec2(date.1 as nat) + text::dec2(date.2 as nat)
}

pub fn write_date(date: (i32, u32, u32)) -> (r: String)
    ensures
        r@ == date_text(date),
{
    let year: i64 = date.0 as i64;
    let size: u64 = if year < 0 {
        (-year) as u64
    } else {
        year as u64
    };
    let digits = text::dec_u64(size);
    let padded = text::pad_zeros(digits.as_str(), 4);
    let first = if year < 0 {
        text::cat2("-", padded.as_str())
    } else if year > 9999 {
        text::cat2("+", digits.as_str())
    } else {
        padded
    };
    let month = text::dec2_u64(date.1 as u64);
    let day = text::dec2_u64(date.2 as u64);
    text::cat3(first.as_str(), month.as_str(), day.as_str())
}

/// The week of a day, from its Monday to its Sunday, as `YYYYMMDD-YYYYMMDD`.
/// `None` where the calendar does not reach that far.
pub open spec fn week_of(t: Today) -> Option<Seq<char>> {
    match date_after(t.year, t.month, t.day, (-t.weekday) as i64) {
        Some(monday) => match date_after(t.year, t.month, t.day, (6 - t.weekday) as i64) {
            Some(sunday) => Some(date_text(monday) + "-"@ + date_text(sunday)),
            None => None,
        },
        None => None,
    }
}

pub fn week(t: Today) -> (r: Option<String>)
    requires
        t.valid(),
    ensures
        text::view_option(r) == week_of(t),
{
    let back: i64 = t.weekday as i64;
    match shift_date(t.year, t.month, t.day, -back) {
        Some(monday) => match shift_date(t.year, t.month, t.day, 6 - back) {
            Some(sunday) => {
                let (first, last) = (write_date(monday), write_date(sunday));
                Some(text::cat3(first.as_str(), "-", last.as_str()))
            },
            None => None,
        },
        None => None,
    }
}

// ---------------------------------------------------------------------------
// seconds since 1970
// ---------------------------------------------------------------------------

/// The time since the Unix epoch: whole seconds, and the nanoseconds beyond.
#[derive(Debug, Clone, Copy, PartialEq, Eq, Structural)]
pub struct SinceEpoch {
    pub secs: u64,
    pub nanos: u32,
}

impl SinceEpoch {
    pub open spec fn valid(self) -> bool {
        self.nanos < 1_000_000_000
    }

    /// The whole milliseconds.
    pub fn millis(&self) -> (r: u128)
        requires
            self.valid(),
        ensures
            r == self.secs * 1000 + self.nanos / 1_000_000,
    {
        self.secs as u128 * 1000 + (self.nanos / 1_000_000) as u128
    }
}

/// `SystemTime::duration_since` of the time now and `UNIX_EPOCH`, taken apart:
/// `None` on a clock that stands before 1970. The time is the machine's; only
/// that less than a second stands beyond the seconds is stated.
#[verifier::external_body]
fn since_epoch() -> (r: Option<SinceEpoch>)
    ensures
        r matches Some(t) ==> t.valid(),
{
    let now = std::time::SystemTime::now().duration_since(std::time::UNIX_EPOCH).ok();
    now.map(|d| SinceEpoch { secs: d.as_secs(), nanos: d.subsec_nanos() })
}

/// Whether a clock can read so. `None` stands for a time before the Unix epoch.
pub open spec fn readable(t: Option<SinceEpoch>) -> bool {
    t matches Some(x) ==> x.valid()
}

/// The milliseconds since the Unix epoch that a clock reads; 0 before it.
pub open spec fn millis_in(t: Option<SinceEpoch>) -> nat {
    match t {
        Some(x) => (x.secs * 1000 + x.nanos / 1_000_000) as nat,
        None => 0,
    }
}

/// The seconds since the Unix epoch that a clock reads; 0 before it.
pub open spec fn seconds_in(t: Option<SinceEpoch>) -> u64 {
    match t {
        Some(x) => x.secs,
        None => 0,
    }
}

pub fn millis_at(t: Option<SinceEpoch>) -> (r: u128)
    requires
        readable(t),
    ensures
        r == millis_in(t),
{
    match t {
        Some(x) => x.millis(),
        None => 0,
    }
}

pub fn seconds_at(t: Option<SinceEpoch>) -> (r: u64)
    ensures
        r == seconds_in(t),
{
    match t {
        Some(x) => x.secs,
        None => 0,
    }
}

/// Milliseconds since the Unix epoch; 0 before it. They are those of some reading
/// of a clock; which one is the machine's.
pub(crate) fn unix_millis() -> (r: u128)
    ensures
        exists|t: Option<SinceEpoch>| readable(t) && r == #[trigger] millis_in(t),
{
    millis_at(since_epoch())
}

/// Seconds since the Unix epoch; 0 before it. A clock can read any number of
/// seconds, so nothing holds of every outcome: [`seconds_at`] tells the result of
/// each reading.
pub(crate) fn unix_seconds() -> u64 {
    seconds_at(since_epoch())
}

} // verus!
