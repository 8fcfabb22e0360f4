//! New messages with defaults filled in.

use vstd::prelude::*;
use crate::base::{Cot, Point};
use crate::text::opt_text;
use crate::tak::detail::TakMarkerDetail;
use crate::time::{rfc3339_millis, Instant, Timestamp};

verus! {

/// The type code that a new marker message gets.
pub const DEFAULT_COT_TYPE_MARKER: &'static str = "a-o-G";

/// How long a new message holds, in seconds: one day.
pub const DEFAULT_VALIDITY_SECS: i64 = 86_400;

/// A fresh identifier.
///
/// Trusted: `uuid::Uuid::new_v4`, written in its hyphenated form. The identifier is random:
/// nothing is claimed of it.
#[verifier::external_body]
fn fresh_uid() -> String {
    uuid::Uuid::new_v4().to_string()
}

/// When a message made at `now` stops holding: a day later, or at `now` itself where the
/// calendar ends within that day.
pub open spec fn default_stale(now: Instant) -> Instant {
    let later = now.secs + DEFAULT_VALIDITY_SECS;
    if later <= i64::MAX && rfc3339_millis(later, now.nanos) is Some {
        Instant { secs: later, nanos: now.nanos }
    } else {
        now
    }
}

/// A marker message made at `now` for the object `uid`, with defaults for all else: version
/// 2.0, the default marker type, valid from `now` for a day, placed at the north pole. The
/// caller is expected to set the position.
pub fn marker_at(now: Timestamp, uid: String) -> (cot: Cot<TakMarkerDetail>)
    ensures
        cot.version@ == "2.0"@,
        cot.uid@ == uid@,
        cot.cot_type@ == DEFAULT_COT_TYPE_MARKER@,
        cot.time@ == now@,
        cot.start@ == now@,
        cot.stale@ == default_stale(now@),
        opt_text(cot.how) == Some("m-g"@),
        cot.detail.is_default(),
        cot.point@ == Point::north_pole_spec(),
{
    let stale = match now.checked_add_seconds(DEFAULT_VALIDITY_SECS) {
        Some(later) => later,
        None => now,
    };
    proof {
        now.lemma_view_is_bounded();
    }
    Cot {
        version: "2.0".to_owned(),
        uid,
        cot_type: DEFAULT_COT_TYPE_MARKER.to_owned(),
        time: now,
        start: now,
        stale,
        how: Some("m-g".to_owned()),
        detail: TakMarkerDetail::default(),
        point: Point::north_pole(),
    }
}

impl Default for Cot<TakMarkerDetail> {
    /// A marker message made now, for a fresh identifier: see `marker_at`.
    fn default() -> (cot: Cot<TakMarkerDetail>)
        ensures
            cot.version@ == "2.0"@,
            cot.cot_type@ == DEFAULT_COT_TYPE_MARKER@,
            cot.start@ == cot.time@,
            cot.stale@ == default_stale(cot.time@),
            opt_text(cot.how) == Some("m-g"@),
            cot.detail.is_default(),
            cot.point@ == Point::north_pole_spec(),
    {
        marker_at(Timestamp::now(), fresh_uid())
    }
}

} // verus!
