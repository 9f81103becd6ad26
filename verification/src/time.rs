use vstd::prelude::*;
use chrono::Datelike;

verus! {

/// The UTC calendar date — year, month (1 to 12), day of month (1 to 31) —
/// of the instant `ts` seconds after the Unix epoch. The proleptic
/// Gregorian calendar makes this a function of the timestamp alone; its
/// value is supplied by the calendar library behind `civil_from_timestamp`.
pub uninterp spec fn civil_of(ts: int) -> (int, int, int);

/// Latest POSIX second inside the calendar library's date range
/// (+262142-12-31T23:59:59Z); later instants are out of calendar range.
pub const MAX_UTC_SECS: u64 = 8210266876799;

/// Relies on `chrono::DateTime::<Utc>::from_timestamp` and the `Datelike`
/// accessors `year`, `month`, `day`: the conversion succeeds exactly for
/// timestamps the calendar range holds, is deterministic in the timestamp,
/// and yields the UTC calendar date with month and day in calendar bounds
/// and the year not before the epoch's.
#[verifier::external_body]
pub(crate) fn civil_from_timestamp(ts: u64) -> (r: Option<(u32, u32, u32)>)
    requires
        ts < 0x8000000000000000,
    ensures
        r.is_some() <==> ts <= MAX_UTC_SECS,
        r matches Some(ymd) ==> {
            &&& (ymd.0 as int, ymd.1 as int, ymd.2 as int) == civil_of(ts as int)
            &&& 1970 <= ymd.0
            &&& 1 <= ymd.1 <= 12
            &&& 1 <= ymd.2 <= 31
        },
{
    match chrono::DateTime::<chrono::Utc>::from_timestamp(ts as i64, 0) {
        Some(dt) => Some((dt.year() as u32, dt.month(), dt.day())),
        None => None,
    }
}

} // verus!
