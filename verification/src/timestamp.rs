//! Wall-clock timestamps. The protocol writes modification times as RFC 3339
//! text; the library keeps them as seconds and nanoseconds since the Unix
//! epoch, and leaves the calendar arithmetic to the `chrono` crate.

use vstd::prelude::*;

verus! {

/// A point in time: seconds since the Unix epoch, in UTC, plus nanoseconds.
#[derive(Clone, Copy, PartialEq, Eq, Structural, Debug)]
pub struct Timestamp {
    pub secs: i64,
    pub nanos: u32,
}

/// The instant an RFC 3339 timestamp text denotes, as Unix seconds and
/// nanoseconds, if the text parses at all.
pub uninterp spec fn datetime_of(s: Seq<char>) -> Option<(i64, u32)>;

/// Relies on chrono's `DateTime<Utc>` FromStr parse to read an RFC 3339
/// timestamp; the result depends on the text alone.
#[verifier::external_body]
pub fn parse_datetime(s: &str) -> (r: Option<Timestamp>)
    ensures
        (r is Some) == (datetime_of(s@) is Some),
        r matches Some(t) ==> datetime_of(s@) == Some((t.secs, t.nanos)),
{
    match s.parse::<chrono::DateTime<chrono::Utc>>() {
        Ok(dt) => Some(Timestamp { secs: dt.timestamp(), nanos: dt.timestamp_subsec_nanos() }),
        Err(_) => None,
    }
}

} // verus!
