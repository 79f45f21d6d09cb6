//! The time interval that a query looks back over, as the user writes it: a
//! whole number and one of the letters `d`, `h` and `m`.

use vstd::prelude::*;
use vstd::string::StrSliceExecFns;

verus! {

/// A time interval: a number of days, hours or minutes.
#[derive(Debug, Clone, Copy, PartialEq, Eq, Structural)]
pub enum Interval {
    Days(i64),
    Hours(i64),
    Minutes(i64),
}

/// The number that a text stands for as `str::parse::<i64>` reads it, or
/// `None` where it reads none.
pub uninterp spec fn parsed_i64(text: Seq<char>) -> Option<i64>;

/// The interval that stands for a text that cannot be read: seven days.
pub open spec fn default_interval() -> Interval {
    Interval::Days(7)
}

/// The interval of a number, if one was read, and a unit letter.
pub open spec fn interval_from_parts(number: Option<i64>, unit: char) -> Interval {
    match number {
        None => default_interval(),
        Some(n) => if unit == 'd' {
            Interval::Days(n)
        } else if unit == 'h' {
            Interval::Hours(n)
        } else if unit == 'm' {
            Interval::Minutes(n)
        } else {
            default_interval()
        },
    }
}

/// The interval that a text stands for: its last character is the unit, what
/// comes before it the number. A text that cannot be read so stands for seven
/// days.
pub open spec fn interval_of(input: Seq<char>) -> Interval {
    if input.len() == 0 {
        default_interval()
    } else {
        interval_from_parts(parsed_i64(input.drop_last()), input.last())
    }
}

/// The longest span in seconds, either way, that a `chrono::TimeDelta` of
/// whole seconds holds: `i64::MAX` milliseconds, rounded down.
pub const MAX_SPAN_SECONDS: i64 = 9_223_372_036_854_775;

/// A number of seconds as a span, where a span can hold it.
pub open spec fn span_of(seconds: int) -> Option<i64> {
    if -MAX_SPAN_SECONDS <= seconds <= MAX_SPAN_SECONDS {
        Some(seconds as i64)
    } else {
        None
    }
}

/// The length of an interval in seconds, where a span can hold it.
pub open spec fn interval_seconds(interval: Interval) -> Option<i64> {
    match interval {
        Interval::Days(n) => span_of(n * 86_400),
        Interval::Hours(n) => span_of(n * 3_600),
        Interval::Minutes(n) => span_of(n * 60),
    }
}

/// The window of a query that ends at `now` and looks back over `interval`:
/// its first and its last second, where both can be held.
pub open spec fn window_of(now: i64, interval: Interval) -> Option<(i64, i64)> {
    match interval_seconds(interval) {
        None => None,
        Some(length) => if i64::MIN <= now - length <= i64::MAX {
            Some(((now - length) as i64, now))
        } else {
            None
        },
    }
}

/// `chrono::TimeDelta::try_days`, read back by `num_seconds`: a day has
/// 86 400 seconds, and a span beyond `i64::MAX` milliseconds is refused.
#[verifier::external_body]
fn days_as_seconds(days: i64) -> (seconds: Option<i64>)
    ensures
        seconds == span_of(days * 86_400),
{
    match chrono::TimeDelta::try_days(days) {
        Some(span) => Some(span.num_seconds()),
        None => None,
    }
}

/// `chrono::TimeDelta::try_hours`, read back by `num_seconds`: an hour has
/// 3 600 seconds, and a span beyond `i64::MAX` milliseconds is refused.
#[verifier::external_body]
fn hours_as_seconds(hours: i64) -> (seconds: Option<i64>)
    ensures
        seconds == span_of(hours * 3_600),
{
    match chrono::TimeDelta::try_hours(hours) {
        Some(span) => Some(span.num_seconds()),
        None => None,
    }
}

/// `chrono::TimeDelta::try_minutes`, read back by `num_seconds`: a minute has
/// 60 seconds, and a span beyond `i64::MAX` milliseconds is refused.
#[verifier::external_body]
fn minutes_as_seconds(minutes: i64) -> (seconds: Option<i64>)
    ensures
        seconds == span_of(minutes * 60),
{
    match chrono::TimeDelta::try_minutes(minutes) {
        Some(span) => Some(span.num_seconds()),
        None => None,
    }
}

/// `str::parse::<i64>`: reads a whole number in decimal notation. What it
/// reads depends on the text alone; an error becomes `None`.
#[verifier::external_body]
fn parse_number(text: &str) -> (number: Option<i64>)
    ensures
        number == parsed_i64(text@),
{
    text.parse::<i64>().ok()
}

/// The interval of a number, if one was read, and a unit letter: days for
/// `d`, hours for `h`, minutes for `m`, and seven days for any other letter
/// or where no number was read.
pub fn interval_from(number: Option<i64>, unit: char) -> (interval: Interval)
    ensures
        interval == interval_from_parts(number, unit),
{
    match number {
        None => Interval::Days(7),
        Some(n) => if unit == 'd' {
            Interval::Days(n)
        } else if unit == 'h' {
            Interval::Hours(n)
        } else if unit == 'm' {
            Interval::Minutes(n)
        } else {
            Interval::Days(7)
        },
    }
}

/// Reads an interval: a whole number followed by `d`, `h` or `m`. Any other
/// text stands for seven days.
pub fn parse_duration(input: &str) -> (interval: Interval)
    ensures
        interval == interval_of(input@),
{
    let n: usize = input.unicode_len();
    if n == 0 {
        return Interval::Days(7);
    }
    let unit: char = input.get_char(n - 1);
    let number: Option<i64> = parse_number(input.substring_char(0, n - 1));
    assert(input@.subrange(0, n - 1) =~= input@.drop_last());
    interval_from(number, unit)
}

impl Interval {
    /// The length of this interval in seconds, or `None` where it is longer
    /// than a span can be.
    pub fn seconds(&self) -> (length: Option<i64>)
        ensures
            length == interval_seconds(*self),
    {
        match self {
            Interval::Days(n) => days_as_seconds(*n),
            Interval::Hours(n) => hours_as_seconds(*n),
            Interval::Minutes(n) => minutes_as_seconds(*n),
        }
    }
}

/// The window of a query that ends at the second `now` and looks back over
/// `interval`: its first and its last second. `None` where the interval is
/// longer than a span can be or the window starts before the first second
/// that can be held.
pub fn query_window(now: i64, interval: Interval) -> (window: Option<(i64, i64)>)
    ensures
        window == window_of(now, interval),
{
    match interval.seconds() {
        None => None,
        Some(length) => match now.checked_sub(length) {
            Some(start) => Some((start, now)),
            None => None,
        },
    }
}

} // verus!
