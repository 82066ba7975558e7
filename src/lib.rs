//! Normalisation of load-shedding schedules: raw records with wall-clock
//! strings become fixed-offset timestamps and canonical events.

pub mod clock;
pub mod error;
pub mod monthly;
pub mod schedule;
pub mod single;
pub mod timestamp;

pub use clock::parse_time_of_day;
pub use error::{ConversionError, TimeField};
pub use monthly::{MonthlyShedding, RawMonthlyShedding};
pub use schedule::{ManuallyInputSchedule, RawManuallyInputSchedule};
pub use single::{RawShedding, Shedding};
pub use timestamp::{parse_local_timestamp, Timestamp, OFFSET_SECONDS, OFFSET_SUFFIX};
