//! The activity queries of the spots and alerts endpoints: everything
//! reported since a number of hours before the current time.
//!
//! Instants are held as plain UNIX timestamps; chrono computes the span of
//! the look-back and the instant it reaches back to. The current time is read
//! by the caller, since reading the clock can fail in ways no argument rules
//! out.

use vstd::prelude::*;
use crate::query::{GetParam, Program};

verus! {

/// How many hours back the activity endpoints look when the request does not
/// say.
pub const DEFAULT_LOOKBACK_HOURS: i64 = 3;

/// The UNIX timestamp of chrono's earliest instant, 262143-01-01T00:00:00Z
/// BCE (`DateTime::<Utc>::MIN_UTC`).
pub const MIN_UTC_SECS: i64 = -8_334_601_228_800;

/// The UNIX timestamp of the last second of chrono's latest day,
/// 262142-12-31T23:59:59Z (`DateTime::<Utc>::MAX_UTC`).
pub const MAX_UTC_SECS: i64 = 8_210_266_876_799;

/// An instant in UTC: whole non-leap seconds since 1970-01-01T00:00:00Z and
/// the nanoseconds past that second.
#[derive(Debug, Clone, Copy, PartialEq, Eq, Structural)]
pub struct UtcTime {
    pub secs: i64,
    pub nanos: u32,
}

/// A query for activities (spots or alerts), as the service layer receives
/// it.
#[derive(Debug, Clone, Copy, PartialEq, Eq, Structural)]
pub struct FindAct {
    pub program: Program,
    pub after: UtcTime,
}

/// Whether chrono has a `DateTime<Utc>` for this timestamp, that is, whether
/// `DateTime::from_timestamp(secs, nanos)` is `Some`: the day lies within
/// chrono's date range, and the nanoseconds stay below a second, or below two
/// in the last second of a minute (a leap second).
pub open spec fn utc_representable(secs: i64, nanos: u32) -> bool {
    &&& MIN_UTC_SECS <= secs <= MAX_UTC_SECS
    &&& (nanos < 1_000_000_000 || (nanos < 2_000_000_000 && secs % 60 == 59))
}

/// An instant that chrono represents and that is not inside a leap second,
/// as every reading of the clock through `Utc::now` is.
pub open spec fn is_clock_instant(t: UtcTime) -> bool {
    utc_representable(t.secs, t.nanos) && t.nanos < 1_000_000_000
}

/// Whether `chrono::TimeDelta::try_hours(hours)` succeeds: the span must fit
/// in `i64::MAX` milliseconds either way.
pub open spec fn hours_in_range(hours: i64) -> bool {
    -(i64::MAX / 1000) <= hours * 3600 <= i64::MAX / 1000
}

/// `chrono::TimeDelta::try_hours`, read back through `num_seconds`: claims
/// the span is `hours * 3600` seconds, and exists exactly when that is
/// within `i64::MAX / 1000` seconds either way (its source: `try_seconds`
/// refuses more than `TimeDelta::MAX`, `i64::MAX` milliseconds).
#[verifier::external_body]
fn hours_as_seconds(hours: i64) -> (r: Option<i64>)
    ensures
        r is Some <==> hours_in_range(hours),
        r matches Some(s) ==> s == hours * 3600,
{
    match chrono::TimeDelta::try_hours(hours) {
        Some(d) => Some(d.num_seconds()),
        None => None,
    }
}

/// `DateTime::<Utc>::checked_sub_signed` of a span of whole seconds, on an
/// instant outside any leap second; the instant and the span go in through
/// `DateTime::from_timestamp` and `TimeDelta::seconds`, and the result comes
/// back through `timestamp` and `timestamp_subsec_nanos`. Claims, as its
/// source shows for such instants, that the result keeps the nanoseconds and
/// moves the seconds back by the span, and exists exactly when chrono
/// represents it.
#[verifier::external_body]
fn utc_sub_seconds(t: UtcTime, span: i64) -> (r: Option<UtcTime>)
    requires
        is_clock_instant(t),
        -(i64::MAX / 1000) <= span <= i64::MAX / 1000,
    ensures
        r == (if utc_representable((t.secs - span) as i64, t.nanos) {
            Some(UtcTime { secs: (t.secs - span) as i64, nanos: t.nanos })
        } else {
            None
        }),
{
    let instant = chrono::DateTime::from_timestamp(t.secs, t.nanos).expect("a chrono instant");
    match instant.checked_sub_signed(chrono::TimeDelta::seconds(span)) {
        Some(d) => Some(UtcTime { secs: d.timestamp(), nanos: d.timestamp_subsec_nanos() }),
        None => None,
    }
}

/// The instant `hours` whole hours before `now`, where both the span and
/// the instant exist for chrono.
pub open spec fn spec_hours_before(now: UtcTime, hours: i64) -> Option<UtcTime> {
    let secs = now.secs - hours * 3600;
    if hours_in_range(hours) && i64::MIN <= secs <= i64::MAX && utc_representable(
        secs as i64,
        now.nanos,
    ) {
        Some(UtcTime { secs: secs as i64, nanos: now.nanos })
    } else {
        None
    }
}

/// How many hours back a request looks.
pub open spec fn spec_lookback_hours(after: Option<i64>) -> i64 {
    match after {
        Some(h) => h,
        None => DEFAULT_LOOKBACK_HOURS,
    }
}

/// Whether the look-back window of a request at `now` exists for chrono.
pub open spec fn window_exists(after: Option<i64>, now: UtcTime) -> bool {
    spec_hours_before(now, spec_lookback_hours(after)) is Some
}

/// The activity query of a request at the instant `now`: POTA activities
/// after the look-back window's start.
pub open spec fn spec_activity_query(after: Option<i64>, now: UtcTime) -> FindAct {
    FindAct {
        program: Program::Pota,
        after: spec_hours_before(now, spec_lookback_hours(after))->0,
    }
}

/// `now - TimeDelta::hours(hours)`: the instant `hours` whole hours earlier,
/// with the same nanoseconds; `None` where chrono has no such span or no
/// such instant (where that subtraction panics).
pub fn hours_before(now: UtcTime, hours: i64) -> (r: Option<UtcTime>)
    requires
        is_clock_instant(now),
    ensures
        r == spec_hours_before(now, hours),
        r matches Some(t) ==> t.secs == now.secs - 3600 * hours && t.nanos == now.nanos,
        hours == 0 ==> r == Some(now),
        0 <= now.secs && 0 <= hours <= 2_315_167_008 ==> r is Some,
        !hours_in_range(hours) ==> r is None,
{
    match hours_as_seconds(hours) {
        Some(span) => utc_sub_seconds(now, span),
        None => None,
    }
}

/// How many hours back a request looks: its `after`, or three hours.
pub fn lookback_hours<C>(param: &GetParam<C>) -> (h: i64)
    ensures
        h == spec_lookback_hours(param.after),
        param.after matches Some(after) ==> h == after,
        param.after is None ==> h == 3,
{
    proof {
        lemma_lookback_is_after(param.after);
    }
    match param.after {
        Some(h) => h,
        None => DEFAULT_LOOKBACK_HOURS,
    }
}

/// The activity query of a spots or alerts request at the instant `now`,
/// read from the clock. Requests whose window chrono cannot represent (where
/// the subtraction panics) are left out; `hours_before` tells them apart.
pub fn activity_query_at<C>(param: &GetParam<C>, now: UtcTime) -> (q: FindAct)
    requires
        is_clock_instant(now),
        window_exists(param.after, now),
    ensures
        q == spec_activity_query(param.after, now),
        q.program == Program::Pota,
        q.after.nanos == now.nanos,
        param.after matches Some(h) ==> q.after.secs == now.secs - 3600 * h,
        param.after is None ==> q.after.secs == now.secs - 3 * 3600,
{
    proof {
        lemma_lookback_is_after(param.after);
        lemma_window_start(param.after, now);
    }
    let start = hours_before(now, lookback_hours(param));
    match start {
        Some(after) => FindAct { program: Program::Pota, after },
        // unreachable: the window exists
        None => FindAct { program: Program::Pota, after: now },
    }
}

/// A request that gives `after` looks back exactly that many hours, whatever
/// the number; one that does not looks back three.
pub proof fn lemma_lookback_is_after(after: Option<i64>)
    ensures
        after matches Some(h) ==> spec_lookback_hours(after) == h,
        after is None ==> spec_lookback_hours(after) == 3,
        forall|h: i64| #[trigger] spec_lookback_hours(Some(h)) == h,
{
}

/// A window's start is exactly the look-back's hours before the current
/// instant, with the same nanoseconds; a request without `after` looks back
/// three hours.
pub proof fn lemma_window_start(after: Option<i64>, now: UtcTime)
    requires
        window_exists(after, now),
    ensures
        spec_activity_query(after, now).program == Program::Pota,
        after matches Some(h) ==> spec_activity_query(after, now).after.secs == now.secs - 3600
            * h,
        after is None ==> spec_activity_query(after, now).after.secs == now.secs - 10800,
        spec_activity_query(after, now).after.secs == now.secs - 3600 * spec_lookback_hours(
            after,
        ),
        spec_activity_query(after, now).after.nanos == now.nanos,
        after is None ==> spec_lookback_hours(after) == 3,
{
}

/// At any clock reading from 1970 on, every look-back of up to 2315167008
/// hours (back to chrono's earliest instant), the default three hours among
/// them, has a window.
pub proof fn lemma_window_exists_after_epoch(after: Option<i64>, now: UtcTime)
    requires
        is_clock_instant(now),
        0 <= now.secs,
        0 <= spec_lookback_hours(after) <= 2_315_167_008,
    ensures
        window_exists(after, now),
        window_exists(None, now),
{
}

/// Looking further back never starts the window later: where both windows
/// exist, the longer look-back starts no later than the shorter.
pub proof fn lemma_longer_lookback_starts_earlier(now: UtcTime, shorter: i64, longer: i64)
    requires
        shorter <= longer,
        spec_hours_before(now, shorter) is Some,
        spec_hours_before(now, longer) is Some,
    ensures
        spec_hours_before(now, longer)->0.secs <= spec_hours_before(now, shorter)->0.secs,
{
}

} // verus!
