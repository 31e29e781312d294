//! Posting times.
//!
//! A `Timestamp` is an instant as a count of microseconds since the Unix
//! epoch. The wall clock and the textual rendering belong to the `chrono`
//! crate; the service itself only stores and forwards the count.

use vstd::prelude::*;

verus! {

/// An instant: microseconds since 1970-01-01T00:00:00 UTC.
#[derive(Clone, Copy, PartialEq, Eq, Structural, Debug)]
pub struct Timestamp {
    pub micros: i64,
}

/// The textual rendering of an instant, `Some` exactly when `chrono` can
/// represent the instant: the `%Y-%m-%dT%H:%M:%S%.f` formatting of the UTC
/// date-time `micros` microseconds from the epoch, a function of the count
/// alone.
pub uninterp spec fn timestamp_display(micros: i64) -> Option<Seq<char>>;

/// Relies on `chrono::Utc::now` and `DateTime::timestamp_micros`: the
/// current instant. Which instant comes back depends on the wall clock, so
/// nothing is promised of the value.
#[verifier::external_body]
pub(crate) fn now_micros() -> (r: i64) {
    chrono::Utc::now().timestamp_micros()
}

/// Relies on `chrono::DateTime::from_timestamp_micros` and the
/// `%Y-%m-%dT%H:%M:%S%.f` formatting of the resulting UTC date-time: the
/// text depends on the microsecond count alone. `from_timestamp_micros`
/// returns `None` only for instants more than about 262000 years from the
/// common era, so any count within 10^17 microseconds of the epoch (about
/// 3168 years) is comfortably representable.
#[verifier::external_body]
pub(crate) fn format_timestamp(micros: i64) -> (r: Option<String>)
    ensures
        r matches Some(s) ==> timestamp_display(micros) == Some(s@),
        r is None ==> timestamp_display(micros) is None,
        -100_000_000_000_000_000 <= micros <= 100_000_000_000_000_000 ==> r is Some,
{
    match chrono::DateTime::<chrono::Utc>::from_timestamp_micros(micros) {
        Some(dt) => Some(format!("{}", dt.naive_utc().format("%Y-%m-%dT%H:%M:%S%.f"))),
        None => None,
    }
}

} // verus!
