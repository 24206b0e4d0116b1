//! UTC instants and their RFC 3339 text, through `chrono`.

use vstd::prelude::*;
use chrono::{DateTime, Utc};

verus! {

/// A UTC instant: whole seconds since the Unix epoch and the nanoseconds
/// past that second.
#[derive(Clone, Copy, Debug)]
pub struct Timestamp {
    pub secs: i64,
    pub nanos: u32,
}

/// The RFC 3339 text `chrono` writes for the instant
/// (`DateTime::<Utc>::from_timestamp` then `to_rfc3339`), `None` when the
/// instant is outside what `chrono` can represent.
pub uninterp spec fn rfc3339_text(secs: int, nanos: int) -> Option<Seq<char>>;

/// The last second `chrono` can represent (the end of year 262142), in
/// seconds since the Unix epoch.
pub open spec fn max_timestamp() -> int {
    8_210_266_876_799
}

/// The optional text of an optional string.
pub open spec fn opt_text(o: Option<String>) -> Option<Seq<char>> {
    match o {
        Some(s) => Some(s@),
        None => None,
    }
}

/// Reads the system clock (`chrono::Utc::now`). The instant depends on
/// when it is called; what is stated is that it is at or after the epoch
/// (`now` panics on a clock before it), within what `chrono` represents,
/// with a sub-second part below one second.
#[verifier::external_body]
pub(crate) fn current_time() -> (r: Timestamp)
    ensures
        0 <= r.secs <= max_timestamp(),
        r.nanos < 1_000_000_000,
{
    let now = Utc::now();
    Timestamp { secs: now.timestamp(), nanos: now.timestamp_subsec_nanos() }
}

/// The RFC 3339 text of an instant (`DateTime::<Utc>::from_timestamp` and
/// `to_rfc3339`); there is one for every instant from the epoch to the
/// last second `chrono` represents.
#[verifier::external_body]
pub(crate) fn rfc3339(t: Timestamp) -> (r: Option<String>)
    ensures
        opt_text(r) == rfc3339_text(t.secs as int, t.nanos as int),
        0 <= t.secs <= max_timestamp() && t.nanos < 1_000_000_000 ==> r is Some,
{
    DateTime::<Utc>::from_timestamp(t.secs, t.nanos).map(|d| d.to_rfc3339())
}

} // verus!
