use vstd::prelude::*;
use crate::error::{ConversionError, TimeField};
use crate::timestamp::{parse_local_timestamp, rfc3339_of, Timestamp, OFFSET_SUFFIX};

verus! {

/// A single stretch of load shedding at one stage.
#[derive(Debug)]
pub struct Shedding {
    /// When load shedding should start.
    pub start: Timestamp,
    /// When load shedding should end. Nothing asks that it be after `start`.
    pub finsh: Timestamp,
    /// The stage of load shedding.
    pub stage: u8,
    /// Where the information on this event comes from.
    pub source: String,
}

/// A single event as received, with local date-times that carry no offset.
#[derive(Debug)]
pub struct RawShedding {
    /// When load shedding should start, as `YYYY-MM-DDTHH:MM:SS` local time.
    pub start: String,
    /// When load shedding should end, in the same form as `start`.
    pub finsh: String,
    /// The stage of load shedding.
    pub stage: u8,
    /// Where the information on this event comes from.
    pub source: String,
}

/// The timestamp that a local date-time denotes at the region's fixed offset.
pub open spec fn local_timestamp_of(local: Seq<char>) -> Option<Timestamp> {
    rfc3339_of(local + OFFSET_SUFFIX@)
}

/// The conversion of a raw single event: the start is read first, then the
/// finish; the first that is no timestamp gives the error. Stage and source
/// are kept as they are.
pub open spec fn shedding_of(raw: RawShedding) -> Result<Shedding, ConversionError> {
    match local_timestamp_of(raw.start@) {
        None => Err(ConversionError::MalformedTimestamp(TimeField::Start)),
        Some(start) => match local_timestamp_of(raw.finsh@) {
            None => Err(ConversionError::MalformedTimestamp(TimeField::Finish)),
            Some(finsh) => Ok(Shedding { start, finsh, stage: raw.stage, source: raw.source }),
        },
    }
}

impl Shedding {
    /// Converts a raw single event, reading both date-times at the fixed offset.
    pub fn from_raw(raw: &RawShedding) -> (r: Result<Shedding, ConversionError>)
        ensures
            r == shedding_of(*raw),
    {
        let start = match parse_local_timestamp(raw.start.as_str(), OFFSET_SUFFIX) {
            Some(t) => t,
            None => { return Err(ConversionError::MalformedTimestamp(TimeField::Start)); },
        };
        let finsh = match parse_local_timestamp(raw.finsh.as_str(), OFFSET_SUFFIX) {
            Some(t) => t,
            None => { return Err(ConversionError::MalformedTimestamp(TimeField::Finish)); },
        };
        Ok(Shedding { start, finsh, stage: raw.stage, source: raw.source.clone() })
    }
}

impl TryFrom<RawShedding> for Shedding {
    type Error = ConversionError;

    fn try_from(raw: RawShedding) -> (r: Result<Shedding, ConversionError>) {
        Shedding::from_raw(&raw)
    }
}

impl vstd::std_specs::convert::TryFromSpecImpl<RawShedding> for Shedding {
    open spec fn obeys_try_from_spec() -> bool {
        true
    }

    open spec fn try_from_spec(raw: RawShedding) -> Result<Shedding, ConversionError> {
        shedding_of(raw)
    }
}

} // verus!
