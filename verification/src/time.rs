//! Conversions between durations and the time types the persistence layer
//! wants.

use vstd::prelude::*;

verus! {

#[verifier::external_type_specification]
#[verifier::external_body]
pub struct ExNaiveTime(chrono::NaiveTime);

/// Relies on chrono's `NaiveTime::from_hms_opt`: it returns `Some` exactly
/// for a valid hour, minute and second.
pub assume_specification[ chrono::NaiveTime::from_hms_opt ](hour: u32, min: u32, sec: u32) -> (r:
    Option<chrono::NaiveTime>)
    ensures
        r is Some <==> (hour < 24 && min < 60 && sec < 60),
;

/// The hour, minute and second of a duration below one day.
pub fn duration_to_hms(total_seconds: u32) -> (r: (u32, u32, u32))
    requires
        total_seconds < 86400,
    ensures
        r.0 == total_seconds / 3600,
        r.1 == (total_seconds / 60) % 60,
        r.2 == total_seconds % 60,
        r.0 < 24 && r.1 < 60 && r.2 < 60,
{
    (total_seconds / 3600, (total_seconds / 60) % 60, total_seconds % 60)
}

/// Turns a duration below one day into a wall-clock time of day.
pub fn duration_to_naive_time(total_seconds: u32) -> (r: chrono::NaiveTime)
    requires
        total_seconds < 86400,
{
    let (h, m, s) = duration_to_hms(total_seconds);
    match chrono::NaiveTime::from_hms_opt(h, m, s) {
        Some(t) => t,
        None => {
            proof {
                assert(false);
            }
            chrono::NaiveTime::from_hms_opt(0, 0, 0).unwrap()
        },
    }
}

/// The whole microseconds of a duration, as the interval type wants them.
pub fn duration_as_microseconds(seconds: u64, subsec_nanos: u32) -> (r: i64)
    requires
        seconds <= 9223372036853,
        subsec_nanos < 1000000000,
    ensures
        r == seconds * 1000000 + subsec_nanos / 1000,
{
    let micros: u64 = seconds * 1000000 + (subsec_nanos / 1000) as u64;
    proof {
        assert(micros <= 0x7FFFFFFFFFFFFFFF);
    }
    micros as i64
}

} // verus!
