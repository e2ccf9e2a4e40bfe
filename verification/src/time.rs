use vstd::prelude::*;

use crate::monitoring::Diff;

verus! {

/// Largest instant the library works with: the last millisecond of year 9999,
/// UTC. Keeping instants inside `[0, MAX_TIMESTAMP_MILLIS]` keeps every
/// timestamp representable by the RFC 3339 formatter.
pub const MAX_TIMESTAMP_MILLIS: i64 = 253_402_300_799_999;

/// An instant, counted in non-leap milliseconds since 1970-01-01T00:00:00 UTC.
#[derive(Clone, Copy, PartialEq, Eq, Structural, Debug)]
pub struct Timestamp {
    pub millis: i64,
}

impl Timestamp {
    /// The instants the library accepts: the epoch through year 9999.
    pub open spec fn wf(self) -> bool {
        0 <= self.millis <= MAX_TIMESTAMP_MILLIS
    }
}

/// A span of time, in milliseconds; never negative.
#[derive(Clone, Copy, PartialEq, Eq, Structural, Debug)]
pub struct Duration {
    pub millis: i64,
}

impl Duration {
    pub open spec fn wf(self) -> bool {
        0 <= self.millis
    }
}

/// A time range, inclusive on both ends (`gte`/`lte` in the queries built
/// from it). `from == to` is a valid, degenerate range.
#[derive(Clone, Copy, PartialEq, Eq, Structural, Debug)]
pub struct TimeRange {
    pub from: Timestamp,
    pub to: Timestamp,
}

impl TimeRange {
    pub open spec fn wf(self) -> bool {
        self.from.wf() && self.to.wf() && self.from.millis <= self.to.millis
    }
}

/// The RFC 3339 text of the instant `millis` milliseconds after the epoch,
/// exactly as the formatter renders it.
pub uninterp spec fn rfc3339_of(millis: int) -> Seq<char>;

/// Relies on chrono: `DateTime::<Utc>::from_timestamp_millis`, which succeeds
/// for every instant up to year 9999 (it rejects only instants more than about
/// 262,000 years from the common era), and `DateTime::to_rfc3339`, whose text
/// depends on the instant alone.
#[verifier::external_body]
pub(crate) fn format_rfc3339(t: Timestamp) -> (r: String)
    requires
        t.wf(),
    ensures
        r@ == rfc3339_of(t.millis as int),
{
    match chrono::DateTime::<chrono::Utc>::from_timestamp_millis(t.millis) {
        Some(d) => d.to_rfc3339(),
        None => String::new(),
    }
}

/// Pairs the two windows evaluated for cursor `point`: the old window spans
/// the `look_back` interval-lengths before the new one, the new window the
/// single interval ending at `point`. The two share the boundary instant
/// `point - interval`, and the old window is exactly `look_back` times as
/// long as the new one.
pub fn windows(point: Timestamp, interval: Duration, look_back: u8) -> (w: Diff<TimeRange>)
    requires
        point.wf(),
        interval.wf(),
        interval.millis * (look_back as int + 1) <= point.millis,
    ensures
        w.old.from.millis == point.millis - interval.millis * (look_back as int + 1),
        w.old.to.millis == point.millis - interval.millis,
        w.new.from == w.old.to,
        w.new.to == point,
        w.old.wf(),
        w.new.wf(),
        w.old.to.millis - w.old.from.millis == (look_back as int) * (w.new.to.millis
            - w.new.from.millis),
{
    let scale: i64 = look_back as i64 + 1;
    proof {
        assert(0 <= interval.millis * scale && interval.millis <= interval.millis * scale
            && (interval.millis * scale) - interval.millis == (look_back as int)
            * interval.millis) by (nonlinear_arith)
            requires
                0 <= interval.millis,
                1 <= scale,
                scale == look_back as int + 1,
        ;
    }
    let span: i64 = interval.millis * scale;
    let old_from = Timestamp { millis: point.millis - span };
    let boundary = Timestamp { millis: point.millis - interval.millis };
    Diff {
        old: TimeRange { from: old_from, to: boundary },
        new: TimeRange { from: boundary, to: point },
    }
}

} // verus!
