//! Dates with a fixed offset from UTC, read from and written as RFC 2822 text.
//!
//! Reading and writing the text is chrono's work. A date is held here as the
//! three integers that chrono makes it from, so that the rest of the library
//! can speak of it.

use vstd::prelude::*;
use crate::errors::{Failure, FeedError};
use crate::util::text::text_of;

verus! {

#[verifier::external_type_specification]
#[verifier::external_body]
pub struct ExParseError(chrono::ParseError);

/// The first second, counted from 1970 in local time, of the year 0.
pub const FIRST_LOCAL_SECOND: i64 = -62167219200;

/// The last second, counted from 1970 in local time, of the year 9999.
pub const LAST_LOCAL_SECOND: i64 = 253402300799;

/// An instant and the offset of the clock that showed it.
pub struct Instant {
    /// Seconds since 1970-01-01 00:00:00 UTC, leap seconds not counted.
    pub seconds: int,
    /// Nanoseconds since the last full second; a thousand million and more during a leap second.
    pub nanos: int,
    /// Seconds that the local clock is ahead of UTC.
    pub offset: int,
}

/// What chrono's `DateTime::parse_from_rfc2822` makes of a text: the
/// timestamp, the nanoseconds of its last second and the offset in seconds of
/// the date that it returns, or `None` where it returns an error.
pub uninterp spec fn rfc2822_instant(text: Seq<char>) -> Option<(i64, u32, i32)>;

/// The text that chrono's `DateTime::to_rfc2822` writes for the date with
/// this timestamp, these nanoseconds and this offset.
pub uninterp spec fn rfc2822_text(seconds: i64, nanos: u32, offset: i32) -> Seq<char>;

/// The instants that RFC 2822 can write: the offset is less than a day, the
/// local year has at most four digits and is not negative, and only the last
/// second of a minute is stretched by a leap second.
pub open spec fn valid_instant(seconds: int, nanos: int, offset: int) -> bool {
    &&& -86400 < offset < 86400
    &&& FIRST_LOCAL_SECOND <= seconds + offset <= LAST_LOCAL_SECOND
    &&& 0 <= nanos < 2000000000
    &&& nanos >= 1000000000 ==> seconds % 60 == 59
}

impl Instant {
    pub open spec fn valid(self) -> bool {
        &&& valid_instant(self.seconds, self.nanos, self.offset)
        &&& i64::MIN <= self.seconds <= i64::MAX
        &&& self.nanos <= u32::MAX
    }

    /// The RFC 2822 text of this instant.
    pub open spec fn text(self) -> Seq<char> {
        rfc2822_text(self.seconds as i64, self.nanos as u32, self.offset as i32)
    }

    /// Whether reading this instant's text gives the instant back.
    pub open spec fn reads_back(self) -> bool {
        instant_of_text(self.text()) == Some(self)
    }
}

/// The instant that a text stands for, where it is an RFC 2822 date that can be written again.
pub open spec fn instant_of_text(text: Seq<char>) -> Option<Instant> {
    match rfc2822_instant(text) {
        Some((seconds, nanos, offset)) => if valid_instant(
            seconds as int,
            nanos as int,
            offset as int,
        ) {
            Some(Instant { seconds: seconds as int, nanos: nanos as int, offset: offset as int })
        } else {
            None
        },
        None => None,
    }
}

/// The text of a date that may be absent.
pub open spec fn date_text(date: Option<Instant>) -> Option<Seq<char>> {
    match date {
        Some(d) => Some(d.text()),
        None => None,
    }
}

/// The date that a builder's date field stands for: none where no text was
/// set, and a failure where the text that was set is no date.
pub open spec fn optional_instant(text: Option<Seq<char>>) -> Result<Option<Instant>, Failure> {
    match text {
        None => Ok(None),
        Some(t) => match instant_of_text(t) {
            Some(i) => Ok(Some(i)),
            None => Err(Failure::StrToDateTime(t)),
        },
    }
}

/// Calls chrono's `DateTime::parse_from_rfc2822` and takes the returned date
/// apart with `timestamp`, `timestamp_subsec_nanos` and the offset's
/// `local_minus_utc`. The contract only gives the result its name.
#[verifier::external_body]
fn parse_rfc2822(text: &str) -> (r: Result<(i64, u32, i32), chrono::ParseError>)
    ensures
        match r {
            Ok(parts) => rfc2822_instant(text@) == Some(parts),
            Err(_) => rfc2822_instant(text@) is None,
        },
{
    let date = chrono::DateTime::parse_from_rfc2822(text)?;
    Ok((date.timestamp(), date.timestamp_subsec_nanos(), date.offset().local_minus_utc()))
}

/// Builds the date with chrono's `DateTime::from_timestamp` and
/// `FixedOffset::east_opt` and calls `to_rfc2822` on it. `requires` leaves
/// out the instants that chrono refuses to build and those for which
/// `to_rfc2822` panics. The contract only gives the text its name.
#[verifier::external_body]
fn format_rfc2822(seconds: i64, nanos: u32, offset: i32) -> (r: String)
    requires
        valid_instant(seconds as int, nanos as int, offset as int),
    ensures
        r@ == rfc2822_text(seconds, nanos, offset),
{
    let zone = chrono::FixedOffset::east_opt(offset).unwrap();
    chrono::DateTime::from_timestamp(seconds, nanos).unwrap().with_timezone(&zone).to_rfc2822()
}

/// A date and time of day with a fixed offset from UTC.
#[derive(Debug, Clone, Copy, PartialEq, Eq)]
pub struct DateTime {
    seconds: i64,
    nanos: u32,
    offset: i32,
}

impl View for DateTime {
    type V = Instant;

    closed spec fn view(&self) -> Instant {
        Instant {
            seconds: self.seconds as int,
            nanos: self.nanos as int,
            offset: self.offset as int,
        }
    }
}

impl DeepView for DateTime {
    type V = Instant;

    open spec fn deep_view(&self) -> Instant {
        self.view()
    }
}

impl DateTime {
    /// Every date is an instant that RFC 2822 can write.
    #[verifier::type_invariant]
    pub open spec fn well_formed(self) -> bool {
        self@.valid()
    }

    /// The date of an instant, where RFC 2822 can write it.
    pub fn from_parts(seconds: i64, nanos: u32, offset: i32) -> (r: Option<DateTime>)
        ensures
            r is Some <==> valid_instant(seconds as int, nanos as int, offset as int),
            r matches Some(d) ==> d@ == (Instant {
                seconds: seconds as int,
                nanos: nanos as int,
                offset: offset as int,
            }),
    {
        if offset <= -86400 || offset >= 86400 {
            return None;
        }
        if nanos >= 2000000000 {
            return None;
        }
        if nanos >= 1000000000 && seconds % 60 != 59 && seconds % 60 != -1 {
            return None;
        }
        if seconds < FIRST_LOCAL_SECOND - 86400 || seconds > LAST_LOCAL_SECOND + 86400 {
            return None;
        }
        let local: i64 = seconds + offset as i64;
        if local < FIRST_LOCAL_SECOND || local > LAST_LOCAL_SECOND {
            return None;
        }
        Some(DateTime { seconds, nanos, offset })
    }

    /// Reads an RFC 2822 date such as `Tue, 1 Jul 2003 10:52:37 +0200`.
    ///
    /// Fails with `StrToDateTime`, holding the text, where the text is no such date.
    pub fn parse_from_rfc2822(text: &str) -> (r: Result<DateTime, FeedError>)
        ensures
            match r {
                Ok(d) => instant_of_text(text@) == Some(d@),
                Err(e) => instant_of_text(text@) is None && e@ == Failure::StrToDateTime(text@),
            },
    {
        match parse_rfc2822(text) {
            Ok(parts) => match DateTime::from_parts(parts.0, parts.1, parts.2) {
                Some(d) => Ok(d),
                None => Err(FeedError::StrToDateTime(text_of(text))),
            },
            Err(_) => Err(FeedError::StrToDateTime(text_of(text))),
        }
    }

    /// Writes the date as RFC 2822 text.
    pub fn to_rfc2822(&self) -> (r: String)
        ensures
            r@ == self@.text(),
            self@.valid(),
    {
        proof {
            use_type_invariant(self);
        }
        format_rfc2822(self.seconds, self.nanos, self.offset)
    }

    /// Seconds since 1970-01-01 00:00:00 UTC.
    pub fn timestamp(&self) -> (r: i64)
        ensures
            r == self@.seconds,
    {
        self.seconds
    }

    /// Nanoseconds since the last full second.
    pub fn timestamp_subsec_nanos(&self) -> (r: u32)
        ensures
            r == self@.nanos,
    {
        self.nanos
    }

    /// Seconds that the local clock is ahead of UTC.
    pub fn offset_seconds(&self) -> (r: i32)
        ensures
            r == self@.offset,
    {
        self.offset
    }
}

/// Reads the date of a builder's date field: nothing where no text was set.
///
/// Fails with `StrToDateTime`, holding the text, where a text was set that is no date.
pub fn option_string_to_option_date(text: &Option<String>) -> (r: Result<
    Option<DateTime>,
    FeedError,
>)
    ensures
        match r {
            Ok(d) => optional_instant(text.deep_view()) == Ok::<_, Failure>(d.deep_view()),
            Err(e) => optional_instant(text.deep_view()) == Err::<Option<Instant>, _>(e@),
        },
{
    match text {
        None => Ok(None),
        Some(t) => match DateTime::parse_from_rfc2822(t.as_str()) {
            Ok(d) => Ok(Some(d)),
            Err(e) => Err(e),
        },
    }
}

/// The RFC 2822 text of a date that may be absent.
pub fn optional_date_text(date: Option<DateTime>) -> (r: Option<String>)
    ensures
        r.deep_view() == date_text(date.deep_view()),
{
    match date {
        Some(d) => Some(d.to_rfc2822()),
        None => None,
    }
}

} // verus!
