//! Rendering window edges as RFC 3339 instants.

use vstd::prelude::*;
use crate::model::MAX_EPOCH_SECS;

verus! {

/// The RFC 3339 rendering (`YYYY-MM-DDTHH:MM:SSZ`) of an epoch second in
/// UTC.  The rendering is a fixed function of the second alone; it is left
/// uninterpreted and pinned to chrono's output by `rfc3339_utc`.
pub uninterp spec fn rfc3339_of(secs: int) -> Seq<char>;

/// Relies on chrono's `DateTime::<Utc>::from_timestamp` (which returns
/// `Some` for every second this accepts) and
/// `to_rfc3339_opts(SecondsFormat::Secs, true)`: the rendered instant
/// depends on the epoch second alone.
#[verifier::external_body]
pub(crate) fn rfc3339_utc(secs: i64) -> (r: String)
    requires
        0 <= secs <= MAX_EPOCH_SECS,
    ensures
        r@ == rfc3339_of(secs as int),
{
    chrono::DateTime::<chrono::Utc>::from_timestamp(secs, 0)
        .unwrap()
        .to_rfc3339_opts(chrono::SecondsFormat::Secs, true)
}

} // verus!
