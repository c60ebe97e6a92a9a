//! Points in time on a monotonic clock, counted in nanoseconds from whatever
//! moment the process picked as its own zero.
use crate::number::{decimal, write_decimal};
use vstd::prelude::*;

verus! {

/// The latest point in time there is: what the largest standard duration comes
/// to in nanoseconds.
pub const LATEST: u128 = 18_446_744_073_709_551_615_999_999_999;

pub const NANOS_PER_SECOND: u128 = 1_000_000_000;

/// A span in whole seconds, spelled out.
pub open spec fn seconds(span: u128) -> Seq<char> {
    decimal((span / NANOS_PER_SECOND) as nat)
}

/// Spells a span out in whole seconds.
pub fn write_seconds(span: u128) -> (text: String)
    requires
        span <= LATEST,
    ensures
        text@ == seconds(span),
{
    write_decimal((span / NANOS_PER_SECOND) as u64)
}

/// Whether at least `span` has passed between `since` and `now`.
pub open spec fn passed(since: u128, now: u128, span: u128) -> bool {
    now - since >= span
}

/// Whether something last done at `at`, if ever, is due again after `span`.
pub open spec fn overdue(at: Option<u128>, now: u128, span: u128) -> bool {
    at matches Some(at) ==> passed(at, now, span)
}

/// Tests whether something is due again.
pub fn is_overdue(at: Option<u128>, now: u128, span: u128) -> (due: bool)
    ensures
        due == overdue(at, now, span),
{
    match at {
        // What lies ahead is not due, whatever the span.
        Some(at) => if now >= at {
            now - at >= span
        } else {
            false
        },
        None => true,
    }
}

/// A time that is brought forward to `span` after `at`, if it is later than
/// that.
pub open spec fn within(time: u128, at: Option<u128>, span: u128) -> u128 {
    match at {
        Some(at) => if at + span < time {
            (at + span) as u128
        } else {
            time
        },
        None => time,
    }
}

/// Brings a time forward.
pub fn brought_forward(time: u128, at: Option<u128>, span: u128) -> (sooner: u128)
    ensures
        sooner == within(time, at, span),
{
    match at {
        Some(at) => if time >= span && at < time - span {
            at + span
        } else {
            time
        },
        None => time,
    }
}

/// Something is due again once its span has passed, and at once where it was never
/// done. Bringing a time forward gives the earlier of the two.
pub proof fn law_a_span_has_to_pass(at: u128, now: u128, span: u128, time: u128)
    ensures
        overdue(None, now, span),
        overdue(Some(at), now, span) <==> now >= at + span,
        passed(at, now, span) <==> now >= at + span,
        within(time, None, span) == time,
        within(time, Some(at), span) <= time,
        within(time, Some(at), span) <= at + span,
        within(time, Some(at), span) == time || within(time, Some(at), span) == at + span,
{
}

} // verus!
