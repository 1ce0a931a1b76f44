//! Points in time, as the tables store them: whole microseconds since the Unix
//! epoch, in UTC.

use vstd::prelude::*;

verus! {

/// Microseconds in one day.
pub const MICROS_PER_DAY: i64 = 86_400_000_000;

/// The earliest instant a [`Timestamp`] can hold: midnight before the first day the
/// calendar of `chrono` knows, January 1 of the year -262143.
pub const MIN_MICROS: i64 = -8_334_601_228_800_000_000;

/// The latest instant a [`Timestamp`] can hold: the last microsecond of
/// December 31 of the year 262142.
pub const MAX_MICROS: i64 = 8_210_266_876_799_999_999;

/// The day number of January 1, 1970, counting January 1 of the year 1 as day 1.
pub const EPOCH_DAY_FROM_CE: i64 = 719_163;

/// An instant in UTC with microsecond precision.
///
/// Every value lies between [`MIN_MICROS`] and [`MAX_MICROS`], so that it can
/// always be handed to the calendar and printed as a date.
#[derive(Clone, Copy, Debug, PartialEq, Eq, Structural)]
pub struct Timestamp {
    micros: i64,
}

impl View for Timestamp {
    type V = int;

    /// The microseconds since the Unix epoch.
    closed spec fn view(&self) -> int {
        self.micros as int
    }
}

impl Timestamp {
    #[verifier::type_invariant]
    spec fn in_range(self) -> bool {
        MIN_MICROS <= self.micros <= MAX_MICROS
    }

    /// The instant `micros` microseconds after the Unix epoch, for a number that
    /// the calendar reaches.
    pub closed spec fn at(micros: int) -> Timestamp {
        Timestamp { micros: micros as i64 }
    }

    /// [`Timestamp::at`] and the view undo each other.
    pub proof fn lemma_at(micros: int)
        requires
            MIN_MICROS <= micros <= MAX_MICROS,
        ensures
            Timestamp::at(micros)@ == micros,
    {
    }

    /// The instant `micros` microseconds after the Unix epoch, if the calendar
    /// reaches that far.
    pub fn from_micros(micros: i64) -> (r: Option<Timestamp>)
        ensures
            r is Some <==> MIN_MICROS <= micros <= MAX_MICROS,
            r matches Some(t) ==> t == Timestamp::at(micros as int) && t@ == micros,
    {
        if MIN_MICROS <= micros && micros <= MAX_MICROS {
            Some(Timestamp { micros })
        } else {
            None
        }
    }

    /// The microseconds since the Unix epoch.
    pub fn micros(&self) -> (r: i64)
        ensures
            r == self@,
            MIN_MICROS <= r <= MAX_MICROS,
    {
        proof {
            use_type_invariant(self);
        }
        self.micros
    }

    /// This instant moved by `delta` microseconds, if the calendar reaches that far.
    pub fn checked_add_micros(&self, delta: i64) -> (r: Option<Timestamp>)
        ensures
            MIN_MICROS <= self@ <= MAX_MICROS,
            r is Some <==> MIN_MICROS <= self@ + delta <= MAX_MICROS,
            r matches Some(t) ==> t == Timestamp::at(self@ + delta) && t@ == self@ + delta,
    {
        let here: i64 = self.micros();
        match here.checked_add(delta) {
            Some(sum) => Timestamp::from_micros(sum),
            None => None,
        }
    }

    /// Whether the instant lies within the calendar, as every instant that the
    /// program holds does.
    pub open spec fn in_calendar(self) -> bool {
        MIN_MICROS <= self@ <= MAX_MICROS
    }

    /// Whether this instant is at or after `other`.
    pub fn is_at_or_after(&self, other: &Timestamp) -> (r: bool)
        ensures
            r == (self@ >= other@),
            self.in_calendar(),
            other.in_calendar(),
    {
        proof {
            use_type_invariant(self);
            use_type_invariant(other);
        }
        self.micros >= other.micros
    }

    /// Midnight UTC at the start of the day with the given day number, where
    /// January 1 of the year 1 is day 1.
    pub fn from_days_from_ce(days: i32) -> (r: Option<Timestamp>)
        ensures
            r is Some <==> MIN_MICROS <= (days - EPOCH_DAY_FROM_CE) * MICROS_PER_DAY <= MAX_MICROS,
            r matches Some(t) ==> t == Timestamp::at((days - EPOCH_DAY_FROM_CE) * MICROS_PER_DAY)
                && t@ == (days - EPOCH_DAY_FROM_CE) * MICROS_PER_DAY,
    {
        let since_epoch: i64 = days as i64 - EPOCH_DAY_FROM_CE;
        if since_epoch < MIN_MICROS / MICROS_PER_DAY || since_epoch > MAX_MICROS / MICROS_PER_DAY {
            None
        } else {
            Timestamp::from_micros(since_epoch * MICROS_PER_DAY)
        }
    }
}

/// The error with which `chrono` refuses a text that does not hold a date.
#[verifier::external_type_specification]
#[verifier::external_body]
pub struct ExParseError(chrono::ParseError);

/// The day that `chrono::NaiveDate::parse_from_str` reads out of `text` by the
/// pattern `format`, as a day number on which January 1 of the year 1 is day 1;
/// `None` where the text does not follow the pattern or names no day of the
/// calendar.
pub uninterp spec fn date_parsed(text: Seq<char>, format: Seq<char>) -> Option<int>;

/// The text that `chrono` prints for the instant `micros` microseconds after the
/// Unix epoch by the pattern `format`.
pub uninterp spec fn date_text(micros: int, format: Seq<char>) -> Seq<char>;

/// Reads the machine's clock with `chrono::Utc::now`, cut to whole microseconds.
///
/// Nothing is claimed of the instant, which differs from call to call, but
/// that it is a [`Timestamp`]: `chrono` holds no instant outside its calendar.
#[verifier::external_body]
pub(crate) fn utc_now() -> Timestamp {
    Timestamp { micros: chrono::Utc::now().timestamp_micros() }
}

/// Calls `chrono::NaiveDate::parse_from_str` and hands the date back as its day
/// number (`Datelike::num_days_from_ce`).
///
/// Trusted: the outcome is the one that [`date_parsed`] names, an error exactly
/// where that is `None`.
#[verifier::external_body]
pub(crate) fn parse_day(text: &str, format: &str) -> (r: Result<i32, chrono::ParseError>)
    ensures
        match r {
            Ok(day) => date_parsed(text@, format@) == Some(day as int),
            Err(_) => date_parsed(text@, format@) is None,
        },
{
    match chrono::NaiveDate::parse_from_str(text, format) {
        Ok(date) => Ok(chrono::Datelike::num_days_from_ce(&date)),
        Err(error) => Err(error),
    }
}

/// Prints an instant with `chrono::DateTime::format`.
///
/// Trusted: the text is the one that [`date_text`] names. The pattern is held
/// to the one of year, month and day, which `chrono` always accepts.
#[verifier::external_body]
pub(crate) fn format_timestamp(instant: Timestamp, format: &str) -> (r: String)
    requires
        format@ == "%Y-%m-%d"@,
    ensures
        r@ == date_text(instant@, format@),
{
    chrono::DateTime::<chrono::Utc>::from_timestamp_micros(instant.micros)
        .unwrap()
        .format(format)
        .to_string()
}

} // verus!
