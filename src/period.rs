use vstd::prelude::*;

use crate::error::ParseError;
use crate::manifest::{Period, TimeSpan};

verus! {

/// A time span in whole milliseconds, when it is a whole number of them
/// that fits in `u64`.
pub open spec fn span_ms(s: TimeSpan) -> Option<u64> {
    let ms = s.secs * 1000 + s.nanos / 1_000_000;
    if s.nanos % 1_000_000 != 0 || ms > u64::MAX {
        None
    } else {
        Some(ms as u64)
    }
}

/// The declared start of a period: its explicit start, or else the
/// computed end of the period before it (zero for the first).
pub open spec fn declared_start_spec(p: Period, previous_period_end_ms: u64) -> Result<u64, ParseError> {
    match p.start {
        Some(s) => match span_ms(s) {
            Some(ms) => Ok(ms),
            None => Err(ParseError::CannotParsePeriodStartAsU64),
        },
        None => Ok(previous_period_end_ms),
    }
}

/// The declared duration of a period, if it has one.
pub open spec fn declared_duration_spec(p: Period) -> Result<Option<u64>, ParseError> {
    match p.duration {
        Some(s) => match span_ms(s) {
            Some(ms) => Ok(Some(ms)),
            None => Err(ParseError::CannotParsePeriodDurationAsU64),
        },
        None => Ok(None),
    }
}

/// Converts a time span to whole milliseconds, exactly.
pub fn span_to_ms(s: TimeSpan) -> (r: Option<u64>)
    ensures
        r == span_ms(s),
{
    if s.nanos % 1_000_000 != 0 {
        return None;
    }
    match s.secs.checked_mul(1000) {
        Some(whole) => whole.checked_add((s.nanos / 1_000_000) as u64),
        None => None,
    }
}

/// The declared start of `period` in milliseconds.
pub fn parse_period_start_ms(period: &Period, previous_period_end_ms: u64) -> (r: Result<u64, ParseError>)
    ensures
        r == declared_start_spec(*period, previous_period_end_ms),
{
    match period.start {
        Some(s) => match span_to_ms(s) {
            Some(ms) => Ok(ms),
            None => Err(ParseError::CannotParsePeriodStartAsU64),
        },
        None => Ok(previous_period_end_ms),
    }
}

/// The declared duration of `period` in milliseconds, if it has one.
pub fn parse_period_duration_ms(period: &Period) -> (r: Result<Option<u64>, ParseError>)
    ensures
        r == declared_duration_spec(*period),
{
    match period.duration {
        Some(s) => match span_to_ms(s) {
            Some(ms) => Ok(Some(ms)),
            None => Err(ParseError::CannotParsePeriodDurationAsU64),
        },
        None => Ok(None),
    }
}

} // verus!
