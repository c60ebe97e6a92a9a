//! What the daemon has been doing, every ten minutes.
//!
//! A healthy daemon is otherwise silent, which makes silence useless as a
//! signal: a spin, a freeze and an idle afternoon all read the same. A few
//! hundred wake-ups an hour are normal, millions are a bug that the watchdog
//! cannot catch.
use crate::session::Arrived;
use crate::time::passed;
use vstd::prelude::*;

verus! {

/// The time between two summaries.
pub const SUMMARY_EVERY: u128 = 600_000_000_000;

pub const HOUR: u128 = 3_600_000_000_000;

/// What has been counted since the last summary.
#[derive(Clone, Copy, Debug, PartialEq, Eq, Structural)]
pub struct Summary {
    /// When the counting began.
    pub since: u128,
    pub wakeups: u64,
    pub events: u64,
    pub restarts: u64,
    /// Whether there has been a session at all.
    pub begun: bool,
    /// The device's own counters at that time: packets and opens.
    pub packets_before: u64,
    pub opens_before: u64,
}

/// So much an hour.
#[derive(Clone, Copy, Debug, PartialEq, Eq, Structural)]
pub struct Rates {
    pub wakeups: u128,
    pub events: u128,
    pub packets: u128,
    pub opens: u128,
    pub restarts: u128,
}

/// A count over a span as a rate by the hour, rounded down.
pub open spec fn hourly(count: int, span: int) -> int {
    count * HOUR / span
}

/// One more, as far as the counter reaches.
pub open spec fn one_more(count: u64) -> u64 {
    if count < u64::MAX {
        (count + 1) as u64
    } else {
        count
    }
}

/// Turns a count over a span into a rate.
fn rate(count: u64, span: u128) -> (per_hour: u128)
    requires
        span > 0,
    ensures
        per_hour == hourly(count as int, span as int),
{
    count as u128 * HOUR / span
}

impl Summary {
    /// Begins to count.
    pub fn new(counters: (u64, u64), now: u128) -> (summary: Summary)
        ensures
            summary == (Summary {
                since: now,
                wakeups: 0,
                events: 0,
                restarts: 0,
                begun: false,
                packets_before: counters.0,
                opens_before: counters.1,
            }),
    {
        Summary {
            since: now,
            wakeups: 0,
            events: 0,
            restarts: 0,
            begun: false,
            packets_before: counters.0,
            opens_before: counters.1,
        }
    }

    /// Whether a wait is a wake-up: it was meant to last, or a layout change cut
    /// even a quick look short.
    pub open spec fn wakes(until: u128, began: u128, arrived: Arrived) -> bool {
        until > began || arrived.change is Some
    }

    /// Counts a wait for `until` that began at `began` and ended with this.
    pub fn waited(&mut self, until: u128, began: u128, arrived: &Arrived)
        ensures
            *final(self) == (Summary {
                wakeups: if Summary::wakes(until, began, *arrived) {
                    one_more(old(self).wakeups)
                } else {
                    old(self).wakeups
                },
                events: if arrived.event is Some {
                    one_more(old(self).events)
                } else {
                    old(self).events
                },
                ..*old(self)
            }),
    {
        if until > began || arrived.change.is_some() {
            self.wakeups = self.wakeups.saturating_add(1);
        }
        if arrived.event.is_some() {
            self.events = self.events.saturating_add(1);
        }
    }

    /// Counts a session that begins. The first one is no restart.
    pub fn subscribing(&mut self)
        ensures
            *final(self) == (Summary {
                begun: true,
                restarts: if old(self).begun {
                    one_more(old(self).restarts)
                } else {
                    old(self).restarts
                },
                ..*old(self)
            }),
    {
        if self.begun {
            self.restarts = self.restarts.saturating_add(1);
        }
        self.begun = true;
    }

    /// Reports the rates when a summary is due, and begins to count anew.
    pub fn report(&mut self, counters: (u64, u64), now: u128) -> (rates: Option<Rates>)
        requires
            counters.0 >= old(self).packets_before,
            counters.1 >= old(self).opens_before,
        ensures
            rates is Some <==> passed(old(self).since, now, SUMMARY_EVERY),
            match rates {
                Some(rates) => {
                    let span = now - old(self).since;
                    &&& rates.wakeups == hourly(old(self).wakeups as int, span)
                    &&& rates.events == hourly(old(self).events as int, span)
                    &&& rates.restarts == hourly(old(self).restarts as int, span)
                    &&& rates.packets == hourly(counters.0 - old(self).packets_before, span)
                    &&& rates.opens == hourly(counters.1 - old(self).opens_before, span)
                    &&& *final(self) == (Summary {
                        since: now,
                        wakeups: 0,
                        events: 0,
                        restarts: 0,
                        begun: old(self).begun,
                        packets_before: counters.0,
                        opens_before: counters.1,
                    })
                },
                None => *final(self) == *old(self),
            },
    {
        if now < self.since || now - self.since < SUMMARY_EVERY {
            return None;
        }
        let span: u128 = now - self.since;
        let rates = Rates {
            wakeups: rate(self.wakeups, span),
            events: rate(self.events, span),
            packets: rate(counters.0 - self.packets_before, span),
            opens: rate(counters.1 - self.opens_before, span),
            restarts: rate(self.restarts, span),
        };
        *self = Summary { begun: self.begun, ..Summary::new(counters, now) };
        Some(rates)
    }
}

/// A steady loop shows up as its rate: a wake-up every so often gives that many
/// an hour, whatever the span between two summaries happens to be.
pub proof fn law_a_steady_rate_is_reported(period: int, turns: int)
    requires
        period > 0,
        turns > 0,
        HOUR as int % period == 0,
    ensures
        hourly(turns, turns * period) == HOUR as int / period,
{
    let per_hour = HOUR as int / period;
    vstd::arithmetic::div_mod::lemma_fundamental_div_mod(HOUR as int, period);
    assert(turns * (period * per_hour) == (turns * period) * per_hour) by (nonlinear_arith);
    assert(turns * period > 0) by (nonlinear_arith)
        requires
            turns > 0,
            period > 0,
    ;
    vstd::arithmetic::div_mod::lemma_div_multiples_vanish(per_hour, turns * period);
    assert((turns * period) * per_hour / (turns * period) == per_hour);
}

/// A rate is the count that fits into an hour at that pace, rounded down.
pub proof fn law_a_rate_is_rounded_down(count: int, span: int)
    requires
        span > 0,
    ensures
        hourly(count, span) * span <= count * 3_600_000_000_000,
        count * 3_600_000_000_000 < (hourly(count, span) + 1) * span,
{
    let all = count * HOUR;
    assert(all == count * 3_600_000_000_000);
    vstd::arithmetic::div_mod::lemma_fundamental_div_mod(all, span);
    vstd::arithmetic::div_mod::lemma_mod_bound(all, span);
    let rate = hourly(count, span);
    assert(span * rate == rate * span) by (nonlinear_arith);
    assert((rate + 1) * span == rate * span + span) by (nonlinear_arith);
}

/// Counting goes up by one until the counter is full.
pub proof fn law_counting_goes_up_by_one(count: u64)
    ensures
        count < u64::MAX ==> one_more(count) == count + 1,
        count == u64::MAX ==> one_more(count) == u64::MAX,
{
}

/// A wait that was meant to last is a wake-up, and so is one that a layout change
/// cut short; a look that found nothing, or only an event, is none.
pub proof fn law_what_counts_as_a_wake_up(until: u128, began: u128, arrived: Arrived)
    ensures
        until > began ==> Summary::wakes(until, began, arrived),
        arrived.change is Some ==> Summary::wakes(until, began, arrived),
        until <= began && arrived.change is None ==> !Summary::wakes(until, began, arrived),
{
}

} // verus!
