use vstd::prelude::*;
use crate::clock::{clock_time_of, minute_of_day, parse_time_of_day};
use crate::error::{ConversionError, TimeField};
use crate::timestamp::{days_from_civil, duration_seconds, Timestamp, OFFSET_SECONDS};

verus! {

/// A load-shedding event that repeats on the same day of every month, with its
/// clock times anchored to reference dates. The start is always on 1 Jan 1970;
/// the finish is on 1 Jan 1970, or on 2 Jan 1970 where the event runs past
/// midnight (from 22:00 to 00:30, say). The reference dates only carry the time
/// of day and the crossing of midnight: they are no real calendar dates.
#[derive(Debug)]
pub struct MonthlyShedding {
    /// When load shedding should start, on the first reference day.
    pub start_time: Timestamp,
    /// When load shedding should finish, on the first or second reference day.
    pub finsh_time: Timestamp,
    /// The stage of load shedding.
    pub stage: u8,
    /// The day of the month on which the event occurs.
    pub date_of_month: u8,
    /// Whether the finish clock time is earlier than the start clock time.
    pub goes_over_midnight: bool,
}

/// A monthly event as received, its clock times not yet parsed.
#[derive(Debug)]
pub struct RawMonthlyShedding {
    /// When load shedding should start, as `HH:MM`.
    pub start_time: String,
    /// When load shedding should finish, as `HH:MM`.
    pub finsh_time: String,
    /// The stage of load shedding.
    pub stage: u8,
    /// The day of the month on which the event occurs.
    pub date_of_month: u8,
}

/// The year of the reference month, January 1970.
pub const REFERENCE_YEAR: i32 = 1970;

/// The reference month.
pub const REFERENCE_MONTH: u32 = 1;

/// The clock time `t` on day `day` of the reference month, at the fixed offset.
pub open spec fn anchored(t: (u32, u32), day: u32) -> Timestamp {
    Timestamp {
        year: REFERENCE_YEAR,
        month: REFERENCE_MONTH,
        day,
        hour: t.0,
        minute: t.1,
        second: 0,
        nanosecond: 0,
        offset_seconds: OFFSET_SECONDS,
    }
}

/// Whether an event from clock time `start` to clock time `finish` runs past midnight.
pub open spec fn crosses_midnight(start: (u32, u32), finish: (u32, u32)) -> bool {
    minute_of_day(finish) < minute_of_day(start)
}

/// The monthly event from clock time `start` to clock time `finish`.
pub open spec fn monthly_of_times(
    start: (u32, u32),
    finish: (u32, u32),
    stage: u8,
    date_of_month: u8,
) -> MonthlyShedding {
    let over = crosses_midnight(start, finish);
    MonthlyShedding {
        start_time: anchored(start, 1),
        finsh_time: anchored(finish, if over { 2 } else { 1 }),
        stage,
        date_of_month,
        goes_over_midnight: over,
    }
}

/// The conversion of a raw monthly event: the start time is read first, then
/// the finish time; the first that is no clock time gives the error.
pub open spec fn monthly_of(raw: RawMonthlyShedding) -> Result<MonthlyShedding, ConversionError> {
    match clock_time_of(raw.start_time@) {
        None => Err(ConversionError::MalformedTimeOfDay(TimeField::Start)),
        Some(start) => match clock_time_of(raw.finsh_time@) {
            None => Err(ConversionError::MalformedTimeOfDay(TimeField::Finish)),
            Some(finish) => Ok(monthly_of_times(start, finish, raw.stage, raw.date_of_month)),
        },
    }
}

impl MonthlyShedding {
    /// Both timestamps are anchored clock times; the event crosses midnight
    /// exactly when its finish clock time is earlier than its start clock
    /// time, and it lasts from zero seconds up to, not including, a whole day.
    pub open spec fn wf(self) -> bool {
        &&& self.start_time.hour < 24 && self.start_time.minute < 60
        &&& self.finsh_time.hour < 24 && self.finsh_time.minute < 60
        &&& self.goes_over_midnight == (self.finsh_time.hour * 60 + self.finsh_time.minute
            < self.start_time.hour * 60 + self.start_time.minute)
        &&& 0 <= duration_seconds(self.start_time, self.finsh_time) < 86400
    }

    /// The monthly event from clock times that were already read.
    pub fn from_clock_times(start: (u32, u32), finish: (u32, u32), stage: u8, date_of_month: u8) -> (r: MonthlyShedding)
        requires
            start.0 < 24 && start.1 < 60,
            finish.0 < 24 && finish.1 < 60,
        ensures
            r == monthly_of_times(start, finish, stage, date_of_month),
            r.wf(),
    {
        proof {
            lemma_reference_days();
        }
        let over = finish.0 * 60 + finish.1 < start.0 * 60 + start.1;
        let finish_day: u32 = if over { 2 } else { 1 };
        MonthlyShedding {
            start_time: Timestamp {
                year: REFERENCE_YEAR,
                month: REFERENCE_MONTH,
                day: 1,
                hour: start.0,
                minute: start.1,
                second: 0,
                nanosecond: 0,
                offset_seconds: OFFSET_SECONDS,
            },
            finsh_time: Timestamp {
                year: REFERENCE_YEAR,
                month: REFERENCE_MONTH,
                day: finish_day,
                hour: finish.0,
                minute: finish.1,
                second: 0,
                nanosecond: 0,
                offset_seconds: OFFSET_SECONDS,
            },
            stage,
            date_of_month,
            goes_over_midnight: over,
        }
    }

    /// Converts a raw monthly event, reading both clock times.
    pub fn from_raw(raw: &RawMonthlyShedding) -> (r: Result<MonthlyShedding, ConversionError>)
        ensures
            r == monthly_of(*raw),
            r matches Ok(e) ==> e.wf(),
    {
        let start = match parse_time_of_day(raw.start_time.as_str()) {
            Some(t) => t,
            None => { return Err(ConversionError::MalformedTimeOfDay(TimeField::Start)); },
        };
        let finish = match parse_time_of_day(raw.finsh_time.as_str()) {
            Some(t) => t,
            None => { return Err(ConversionError::MalformedTimeOfDay(TimeField::Finish)); },
        };
        Ok(MonthlyShedding::from_clock_times(start, finish, raw.stage, raw.date_of_month))
    }
}

impl TryFrom<RawMonthlyShedding> for MonthlyShedding {
    type Error = ConversionError;

    fn try_from(raw: RawMonthlyShedding) -> (r: Result<MonthlyShedding, ConversionError>) {
        MonthlyShedding::from_raw(&raw)
    }
}

impl vstd::std_specs::convert::TryFromSpecImpl<RawMonthlyShedding> for MonthlyShedding {
    open spec fn obeys_try_from_spec() -> bool {
        true
    }

    open spec fn try_from_spec(raw: RawMonthlyShedding) -> Result<MonthlyShedding, ConversionError> {
        monthly_of(raw)
    }
}

/// The reference days are consecutive calendar days, the first of them day 0.
proof fn lemma_reference_days()
    ensures
        days_from_civil(REFERENCE_YEAR as int, REFERENCE_MONTH as int, 1) == 0,
        days_from_civil(REFERENCE_YEAR as int, REFERENCE_MONTH as int, 2) == 1,
{
}

/// An event whose start and finish strings are equal does not cross midnight
/// and lasts no time.
pub proof fn lemma_equal_times_zero_duration(raw: RawMonthlyShedding)
    requires
        raw.start_time@ == raw.finsh_time@,
    ensures
        monthly_of(raw) matches Ok(e) ==> !e.goes_over_midnight && duration_seconds(
            e.start_time,
            e.finsh_time,
        ) == 0,
{
}

/// An event whose finish clock time is earlier than its start clock time
/// crosses midnight, and its finish lies on the calendar day after its start.
pub proof fn lemma_crossing_next_day(raw: RawMonthlyShedding, start: (u32, u32), finish: (u32, u32))
    requires
        clock_time_of(raw.start_time@) == Some(start),
        clock_time_of(raw.finsh_time@) == Some(finish),
        minute_of_day(finish) < minute_of_day(start),
    ensures
        monthly_of(raw) matches Ok(e) && e.goes_over_midnight && e.finsh_time.day_number()
            == e.start_time.day_number() + 1,
{
    lemma_reference_days();
}

/// An event whose start clock time is earlier than its finish clock time does
/// not cross midnight, and both its timestamps share one calendar date.
pub proof fn lemma_same_day(raw: RawMonthlyShedding, start: (u32, u32), finish: (u32, u32))
    requires
        clock_time_of(raw.start_time@) == Some(start),
        clock_time_of(raw.finsh_time@) == Some(finish),
        minute_of_day(start) < minute_of_day(finish),
    ensures
        monthly_of(raw) matches Ok(e) && !e.goes_over_midnight && e.finsh_time.year
            == e.start_time.year && e.finsh_time.month == e.start_time.month
            && e.finsh_time.day == e.start_time.day,
{
}

} // verus!
