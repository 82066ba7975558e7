use vstd::prelude::*;

verus! {

/// Which of a record's two time fields a failure comes from.
#[derive(Clone, Copy, Debug, PartialEq, Eq, Structural)]
pub enum TimeField {
    Start,
    Finish,
}

/// Why a raw record could not be converted.
#[derive(Clone, Copy, Debug, PartialEq, Eq, Structural)]
pub enum ConversionError {
    /// A date-time, with the fixed offset appended, is not an RFC 3339 timestamp.
    MalformedTimestamp(TimeField),
    /// A clock time is not an `HH:MM` value of a 24-hour clock.
    MalformedTimeOfDay(TimeField),
}

} // verus!
