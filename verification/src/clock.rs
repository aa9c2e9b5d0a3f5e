//! The wall clock and the RFC 3339 rendering of instants, through chrono.

use vstd::prelude::*;

use crate::command::MAX_TIMESTAMP;

verus! {

/// The RFC 3339 rendering, at seconds precision with a `Z` suffix, of an
/// instant given as seconds since the Unix epoch.
pub uninterp spec fn rfc3339_utc(ts: int) -> Seq<char>;

/// Relies on chrono's `DateTime::<Utc>::from_timestamp`, which returns a
/// value for every in-range number of seconds, and `to_rfc3339_opts` with
/// `SecondsFormat::Secs` and a `Z` suffix, whose rendering of a UTC
/// instant depends on the timestamp alone.
#[verifier::external_body]
pub fn format_rfc3339(ts: i64) -> (r: Vec<char>)
    requires
        0 <= ts <= MAX_TIMESTAMP,
    ensures
        r@ == rfc3339_utc(ts as int),
{
    let dt = chrono::DateTime::<chrono::Utc>::from_timestamp(ts, 0).unwrap();
    dt.to_rfc3339_opts(chrono::SecondsFormat::Secs, true).chars().collect()
}

/// Relies on `std::time::SystemTime::now` for the wall clock.  Every
/// reading returns: a clock before the Unix epoch comes back as zero and
/// one beyond the representable seconds as the largest value.  Nothing is
/// promised of the value itself.
#[verifier::external_body]
pub fn now_unix() -> i64 {
    match std::time::SystemTime::now().duration_since(std::time::UNIX_EPOCH) {
        Ok(d) => i64::try_from(d.as_secs()).unwrap_or(i64::MAX),
        Err(_) => 0,
    }
}

} // verus!
