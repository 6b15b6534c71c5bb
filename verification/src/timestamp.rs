//! The date and time of an OpenFMB timestamp.

use vstd::prelude::*;

verus! {

/// A date and time without a time zone, as `chrono` holds it.
#[verifier::external_type_specification]
#[verifier::external_body]
pub struct ExNaiveDateTime(chrono::NaiveDateTime);

/// The UTC date and time `secs` seconds and `nanos` nanoseconds after the
/// Unix epoch, as `chrono::DateTime::from_timestamp` makes it (without its
/// time zone); `None` where the seconds are out of chrono's range or the
/// nanoseconds are invalid.
pub uninterp spec fn naive_timestamp(secs: i64, nanos: u32) -> Option<chrono::NaiveDateTime>;

/// Calls `chrono::DateTime::from_timestamp` and drops the time zone
/// (`naive_utc`), as `NaiveDateTime::from_timestamp_opt` does. The contract
/// names the result: it is a function of the two numbers alone.
#[verifier::external_body]
fn from_timestamp(secs: i64, nanos: u32) -> (r: Option<chrono::NaiveDateTime>)
    ensures
        r == naive_timestamp(secs, nanos),
{
    chrono::DateTime::from_timestamp(secs, nanos).map(|d| d.naive_utc())
}

/// The date and time of an OpenFMB timestamp: its seconds (read as a signed
/// number) and nanoseconds where chrono accepts them, else its whole
/// seconds alone; `None` where chrono accepts neither, as the seconds are
/// out of its range.
pub fn openfmb_ts_to_timestamp(seconds: u64, nanoseconds: u32) -> (r: Option<chrono::NaiveDateTime>)
    ensures
        r == match naive_timestamp(seconds as i64, nanoseconds) {
            Some(d) => Some(d),
            None => naive_timestamp(seconds as i64, 0),
        },
{
    let secs = seconds as i64;
    match from_timestamp(secs, nanoseconds) {
        Some(d) => Some(d),
        None => from_timestamp(secs, 0),
    }
}

} // verus!
