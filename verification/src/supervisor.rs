//! What happens between two sessions.
use crate::bridge::{nothing_pushed, Bridge, BridgeError, BridgeView};
use vstd::arithmetic::power2::{lemma2_to64, lemma_pow2_unfold, pow2};
use vstd::prelude::*;

verus! {

pub const RECONNECT_MIN: u128 = 1_000_000_000;

pub const RECONNECT_MAX: u128 = 30_000_000_000;

/// A session that lasted this long is evidence the world is healthy again, and
/// the next hiccup deserves a fast retry rather than the backoff we ended on.
pub const HEALTHY_SESSION: u128 = 60_000_000_000;

/// Restarts we ask for ourselves are normally instant; more than a few in a row
/// without a healthy session in between means something is flapping.
pub const RAPID_RESTART_LIMIT: u32 = 3;

/// How patient we are with a world that keeps failing.
#[derive(Clone, Copy, Debug, PartialEq, Eq, Structural)]
pub struct Supervisor {
    pub backoff: u128,
    pub rapid_restarts: u32,
}

/// What to do before the next session.
#[derive(Debug, PartialEq, Eq)]
pub enum Rest {
    /// Go on at once.
    AtOnce,
    /// The layout source keeps flapping: pause for so long.
    Flapping(u128),
    /// The session failed for this reason: retry after so long.
    Retry(BridgeError, u128),
}

impl Supervisor {
    /// Whether the backoff is within its bounds.
    pub open spec fn wf(self) -> bool {
        RECONNECT_MIN <= self.backoff <= RECONNECT_MAX
    }

    /// Patience after a session that lasted so long, before its outcome counts.
    /// Without forgiving, a boot race that saturated the backoff would still be
    /// charging it for a one-second restart hours later.
    pub open spec fn forgiven(self, lasted: u128) -> Supervisor {
        if lasted >= HEALTHY_SESSION {
            Supervisor { backoff: RECONNECT_MIN, rapid_restarts: 0 }
        } else {
            self
        }
    }

    /// Patience after a restart that the session asked for itself.
    pub open spec fn restarted(self) -> Supervisor {
        Supervisor { rapid_restarts: (self.rapid_restarts + 1) as u32, ..self }
    }

    /// Patience after a failure: the next one costs twice as much, up to the
    /// largest backoff.
    pub open spec fn failed(self) -> Supervisor {
        Supervisor {
            backoff: if self.backoff * 2 <= RECONNECT_MAX {
                (self.backoff * 2) as u128
            } else {
                RECONNECT_MAX
            },
            ..self
        }
    }

    pub fn new() -> (supervisor: Supervisor)
        ensures
            supervisor == (Supervisor { backoff: RECONNECT_MIN, rapid_restarts: 0 }),
            supervisor.wf(),
    {
        Supervisor { backoff: RECONNECT_MIN, rapid_restarts: 0 }
    }

    /// Takes in how a session ended and how long it had lasted. After a failure
    /// the bridge forgets the device and all it believed of it.
    pub fn session_ended(
        &mut self,
        bridge: &mut Bridge,
        outcome: Result<(), BridgeError>,
        lasted: u128,
    ) -> (rest: Rest)
        requires
            old(self).wf(),
            old(self).rapid_restarts < u32::MAX,
            old(bridge)@.phase is Idle,
            old(bridge)@.wf(),
        ensures
            ({
                let before = old(self).forgiven(lasted);
                match outcome {
                    Ok(_) => {
                        &&& *final(self) == before.restarted()
                        &&& rest == (if before.restarted().rapid_restarts > RAPID_RESTART_LIMIT {
                            Rest::Flapping(RECONNECT_MIN)
                        } else {
                            Rest::AtOnce
                        })
                        &&& final(bridge)@ == old(bridge)@
                    },
                    Err(error) => {
                        &&& *final(self) == before.failed()
                        &&& rest == Rest::Retry(error, before.backoff)
                        &&& final(bridge)@ == (BridgeView {
                            qube: old(bridge)@.qube.closed(),
                            pushed: nothing_pushed(),
                            ..old(bridge)@
                        })
                    },
                }
            }),
            final(self).wf(),
            final(bridge)@.wf(),
    {
        if lasted >= HEALTHY_SESSION {
            self.backoff = RECONNECT_MIN;
            self.rapid_restarts = 0;
        }
        match outcome {
            Ok(_) => {
                self.rapid_restarts = self.rapid_restarts + 1;
                if self.rapid_restarts > RAPID_RESTART_LIMIT {
                    Rest::Flapping(RECONNECT_MIN)
                } else {
                    Rest::AtOnce
                }
            },
            Err(error) => {
                bridge.reset();
                let pause: u128 = self.backoff;
                self.backoff = if pause * 2 <= RECONNECT_MAX {
                    pause * 2
                } else {
                    RECONNECT_MAX
                };
                Rest::Retry(error, pause)
            },
        }
    }
}

/// Patience after so many short sessions in a row that all failed.
pub open spec fn after_failures(start: Supervisor, count: nat) -> Supervisor
    decreases count,
{
    if count == 0 {
        start
    } else {
        after_failures(start, (count - 1) as nat).failed()
    }
}

/// The backoff doubles from the smallest to the largest and stays there: 1 s,
/// 2 s, 4 s, 8 s, 16 s, then 30 s for good.
pub proof fn law_backoff_doubles_up_to_the_largest(start: Supervisor, count: nat)
    requires
        start.backoff == RECONNECT_MIN,
    ensures
        after_failures(start, count).backoff == (if RECONNECT_MIN * pow2(count) <= RECONNECT_MAX {
            RECONNECT_MIN * pow2(count)
        } else {
            RECONNECT_MAX as int
        }),
        after_failures(start, count).wf(),
    decreases count,
{
    lemma2_to64();
    if count > 0 {
        law_backoff_doubles_up_to_the_largest(start, (count - 1) as nat);
        lemma_pow2_unfold(count);
    }
}

/// Patience after so many short sessions in a row that all asked for a restart.
pub open spec fn after_restarts(start: Supervisor, count: nat) -> Supervisor
    decreases count,
{
    if count == 0 {
        start
    } else {
        after_restarts(start, (count - 1) as nat).restarted()
    }
}

/// Restarts that the session asks for are instant, a few times in a row: only
/// from the fourth on is there a pause.
pub proof fn law_a_few_restarts_are_instant(start: Supervisor, count: nat)
    requires
        start.rapid_restarts == 0,
        count <= u32::MAX,
    ensures
        after_restarts(start, count).rapid_restarts == count,
        after_restarts(start, count).backoff == start.backoff,
    decreases count,
{
    if count > 0 {
        law_a_few_restarts_are_instant(start, (count - 1) as nat);
    }
}

/// A session that lasted long enough wipes the slate: whatever the backoff had
/// grown to, the next failure is retried after the shortest pause, and the next
/// restarts are instant again.
pub proof fn law_a_healthy_session_resets_the_backoff(
    supervisor: Supervisor,
    lasted: u128,
)
    requires
        lasted >= HEALTHY_SESSION,
    ensures
        supervisor.forgiven(lasted).backoff == RECONNECT_MIN,
        supervisor.forgiven(lasted).restarted().rapid_restarts <= RAPID_RESTART_LIMIT,
{
}

/// A short session forgives nothing: the backoff never shrinks by failing.
pub proof fn law_failing_never_shortens_the_backoff(supervisor: Supervisor, lasted: u128)
    requires
        supervisor.wf(),
        lasted < HEALTHY_SESSION,
    ensures
        supervisor.forgiven(lasted).failed().backoff >= supervisor.backoff,
        supervisor.forgiven(lasted).failed().wf(),
{
}

} // verus!
