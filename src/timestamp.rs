use vstd::prelude::*;
use vstd::string::*;
use chrono::{Datelike, Timelike};

verus! {

/// The offset of the region's standard time from UTC, in seconds (UTC+2).
pub const OFFSET_SECONDS: i32 = 7200;

/// The same offset in the form that an RFC 3339 date-time carries it.
pub const OFFSET_SUFFIX: &'static str = "+02:00";

/// A date and a time of day in a fixed offset from UTC, held as plain numbers.
#[derive(Clone, Copy, Debug, PartialEq, Eq, Structural)]
pub struct Timestamp {
    pub year: i32,
    pub month: u32,
    pub day: u32,
    pub hour: u32,
    pub minute: u32,
    pub second: u32,
    pub nanosecond: u32,
    /// Seconds east of UTC.
    pub offset_seconds: i32,
}

/// Days from 1970-01-01 to the given day of the proleptic Gregorian calendar.
pub open spec fn days_from_civil(y: int, m: int, d: int) -> int {
    let y = if m <= 2 { y - 1 } else { y };
    let era = y / 400;
    let yoe = y - era * 400;
    let mp = if m > 2 { m - 3 } else { m + 9 };
    let doy = (153 * mp + 2) / 5 + d - 1;
    let doe = yoe * 365 + yoe / 4 - yoe / 100 + doy;
    era * 146097 + doe - 719468
}

impl Timestamp {
    /// The calendar day of this timestamp, counted in days from 1970-01-01.
    pub open spec fn day_number(self) -> int {
        days_from_civil(self.year as int, self.month as int, self.day as int)
    }

    /// The instant this timestamp denotes, in whole seconds since the Unix epoch.
    pub open spec fn epoch_seconds(self) -> int {
        self.day_number() * 86400 + self.hour * 3600 + self.minute * 60 + self.second
            - self.offset_seconds
    }
}

/// Seconds from instant `a` to instant `b`.
pub open spec fn duration_seconds(a: Timestamp, b: Timestamp) -> int {
    b.epoch_seconds() - a.epoch_seconds()
}

/// What chrono's RFC 3339 parser makes of a string, `None` where it fails.
pub uninterp spec fn rfc3339_of(s: Seq<char>) -> Option<Timestamp>;

#[verifier::external_type_specification]
#[verifier::external_body]
pub struct ExParseError(chrono::ParseError);

/// Relies on chrono's `DateTime::parse_from_rfc3339`: it is a function of the
/// text alone; the parsed value is read back field by field.
#[verifier::external_body]
fn rfc3339(s: &str) -> (r: Result<Timestamp, chrono::ParseError>)
    ensures
        r is Ok <==> rfc3339_of(s@) is Some,
        r matches Ok(t) ==> rfc3339_of(s@) == Some(t),
{
    let t = chrono::DateTime::parse_from_rfc3339(s)?;
    Ok(Timestamp {
        year: t.year(),
        month: t.month(),
        day: t.day(),
        hour: t.hour(),
        minute: t.minute(),
        second: t.second(),
        nanosecond: t.nanosecond(),
        offset_seconds: t.offset().local_minus_utc(),
    })
}

/// Parses a local date-time without an offset, with `offset_suffix` (such as
/// `OFFSET_SUFFIX`) appended, as an RFC 3339 date-time.
pub fn parse_local_timestamp(local: &str, offset_suffix: &str) -> (r: Option<Timestamp>)
    ensures
        r == rfc3339_of(local@ + offset_suffix@),
{
    let text = String::from_str(local).concat(offset_suffix);
    match rfc3339(text.as_str()) {
        Ok(t) => Some(t),
        Err(_) => None,
    }
}

} // verus!
