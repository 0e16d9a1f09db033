//! The decoded time-service response and its projection into the record the
//! operating system's clock-set primitive takes.

use vstd::prelude::*;

use crate::datetime::DateTimeParts;
use crate::datetime::decompose_datetime;
use crate::datetime::decompose_spec;
use crate::errors::ParseError;

verus! {

/// The time-service response: one record per run, immutable once decoded.
#[derive(Debug)]
pub struct TimeRecord {
    pub datetime: String,
    pub day_of_week: u8,
    pub day_of_year: u32,
    pub timezone: String,
    pub unixtime: i64,
    pub utc_datetime: String,
    pub utc_offset: String,
    pub week_number: u8,
}

/// The record handed to the clock-set primitive: the eight 16-bit fields of
/// the target local time.
#[derive(Clone, Copy, Debug, PartialEq, Eq, Structural)]
pub struct ClockFields {
    pub year: u16,
    pub month: u16,
    pub day_of_week: u16,
    pub day: u16,
    pub hour: u16,
    pub minute: u16,
    pub second: u16,
    pub millisecond: u16,
}

/// The clock fields a decomposed `datetime` and a weekday yield.
pub open spec fn clock_fields_spec(p: DateTimeParts, day_of_week: u8) -> ClockFields {
    ClockFields {
        year: p.year,
        month: p.month,
        day_of_week: day_of_week as u16,
        day: p.day,
        hour: p.hour,
        minute: p.minute,
        second: p.second,
        millisecond: p.millisecond,
    }
}

/// What projecting a record to clock fields yields: the decomposition of its
/// `datetime` combined with its `day_of_week`, or the decomposition's error.
pub open spec fn clock_fields_of(datetime: Seq<char>, day_of_week: u8) -> Result<
    ClockFields,
    ParseError,
> {
    match decompose_spec(datetime) {
        Ok(p) => Ok(clock_fields_spec(p, day_of_week)),
        Err(e) => Err(e),
    }
}

impl TimeRecord {
    /// Projects this record into the fields the clock setter takes.
    pub fn clock_fields(&self) -> (r: Result<ClockFields, ParseError>)
        ensures
            r == clock_fields_of(self.datetime@, self.day_of_week),
    {
        match decompose_datetime(self.datetime.as_str()) {
            Ok(p) => Ok(
                ClockFields {
                    year: p.year,
                    month: p.month,
                    day_of_week: self.day_of_week as u16,
                    day: p.day,
                    hour: p.hour,
                    minute: p.minute,
                    second: p.second,
                    millisecond: p.millisecond,
                },
            ),
            Err(e) => Err(e),
        }
    }
}

} // verus!
