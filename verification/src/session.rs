//! One connected lifetime: subscribed to herdr, following layout changes.
//!
//! The session waits for four things and decides which of them comes first:
//! a layout change must reach the keyboard immediately, because every keystroke
//! until it does produces the wrong symbol; the beat comes before herdr's
//! events, so that a chatty herdr can never starve it; and the events are only
//! hints, which can safely wait.
use crate::bridge::{Bridge, BridgeError, BridgeView, Job, HEARTBEAT, LAYOUT_REFRESH};
use crate::herdr::HerdrError;
use crate::layout::{Change, KdeLayouts, LayoutError};
use crate::time::{brought_forward, within, LATEST};
use vstd::prelude::*;

verus! {

/// Agent states flap between tool calls; coalesce a burst into one packet.
pub const DEBOUNCE: u128 = 300_000_000;

/// How often to look for a layout service that is not there.
pub const LAYOUT_PROBE: u128 = 30_000_000_000;

/// The firmware drops the agent counts when none arrived for this long.
pub const FIRMWARE_EXPIRY: u128 = 30_000_000_000;

/// When the session has to do something by itself.
#[derive(Clone, Copy, Debug, PartialEq, Eq, Structural)]
pub struct Session {
    /// The next beat.
    pub deadline: u128,
    /// The next look for a layout service, if one is missing.
    pub next_layout_probe: u128,
}

/// What has arrived and was not looked at yet.
#[derive(Debug, PartialEq, Eq)]
pub struct Arrived {
    pub change: Option<Change>,
    pub event: Option<Result<(), HerdrError>>,
}

/// What the session turns to next.
#[derive(Debug, PartialEq, Eq)]
pub enum Wake {
    Change(Change),
    Probe,
    Beat,
    Event(Result<(), HerdrError>),
    /// Nothing yet, and nothing by itself before this time.
    Wait(u128),
}

/// What has to be done about it.
#[derive(Debug, PartialEq, Eq)]
pub enum Step {
    /// Nothing more: wait for what comes next.
    Again,
    /// Have the bridge do this.
    Run(Job),
    /// Look for the layout service.
    Connect,
    /// The session is over. Without an error a fresh one should start: the
    /// layout source appeared and needs its signals followed, or the one there
    /// was went away and must be dropped before it can be looked for again.
    End(Result<(), BridgeError>),
}

/// The earlier of two times.
pub open spec fn earlier(left: u128, right: u128) -> u128 {
    if left <= right {
        left
    } else {
        right
    }
}

/// Whether a layout source is wanted and missing. The service can appear late
/// or come back after a desktop restart.
pub open spec fn probing(bridge: BridgeView) -> bool {
    bridge.wants_layout && bridge.layouts is None
}

/// Tests whether a layout source is wanted and missing.
pub fn is_probing(bridge: &Bridge) -> (missing: bool)
    ensures
        missing == probing(bridge@),
{
    bridge.wants_layout && bridge.layouts.is_none()
}

/// When a beat that would be due at `time` has to come: no later than a
/// heartbeat after the last counts, nor, where there is a layout source, than a
/// refresh after the last layout.
pub open spec fn due_by(time: u128, bridge: BridgeView) -> u128 {
    let counted = within(time, bridge.pushed.counts_at, HEARTBEAT);
    if bridge.layouts is Some {
        within(counted, bridge.pushed.layout_at, LAYOUT_REFRESH)
    } else {
        counted
    }
}

/// Works out when the beat has to come.
fn due(time: u128, bridge: &Bridge) -> (deadline: u128)
    ensures
        deadline == due_by(time, bridge@),
{
    let counted = brought_forward(time, bridge.pushed.counts_at, HEARTBEAT);
    if bridge.layouts.is_some() {
        brought_forward(counted, bridge.pushed.layout_at, LAYOUT_REFRESH)
    } else {
        counted
    }
}

impl Session {
    /// Whether the next beat comes in time for what the dongle has: the counts
    /// are sent again within a heartbeat, and the layout, where there is a source
    /// for it, within a refresh.
    pub open spec fn timely(self, bridge: BridgeView) -> bool {
        &&& bridge.pushed.counts_at matches Some(at) ==> self.deadline <= at + HEARTBEAT
        &&& bridge.layouts is Some && bridge.pushed.layout_at is Some ==> self.deadline
            <= bridge.pushed.layout_at->0 + LAYOUT_REFRESH
    }

    /// What comes first. A disarmed probe cannot wake anybody.
    pub open spec fn first(self, probing: bool, arrived: Arrived, now: u128) -> Wake {
        if let Some(change) = arrived.change {
            Wake::Change(change)
        } else if probing && now >= self.next_layout_probe {
            Wake::Probe
        } else if now >= self.deadline {
            Wake::Beat
        } else if let Some(event) = arrived.event {
            Wake::Event(event)
        } else if probing {
            Wake::Wait(earlier(self.deadline, self.next_layout_probe))
        } else {
            Wake::Wait(self.deadline)
        }
    }

    /// The beat after an event: pulled in, never pushed out, so that a burst
    /// coalesces into one packet instead of deferring it for the length of the
    /// burst.
    pub open spec fn hinted(self, now: u128) -> Session {
        Session { deadline: earlier(self.deadline, (now + DEBOUNCE) as u128), ..self }
    }

    /// The beat after a job of the bridge that ended well.
    pub open spec fn worked(self, bridge: BridgeView, job: Job, now: u128) -> Session {
        let time = if job is Beat {
            (now + HEARTBEAT) as u128
        } else {
            self.deadline
        };
        Session { deadline: due_by(time, bridge), ..self }
    }

    /// Starts a session: the subscription stands, and it is known whether the
    /// layout source, if there is one, can be followed. Failing to follow it
    /// costs the layout, so the source is let go of while the clock and the
    /// agent counts keep running. The first beat is due at once.
    pub fn open(bridge: &mut Bridge, followed: bool, now: u128) -> (session: Session)
        requires
            old(bridge)@.phase is Idle,
            old(bridge)@.wf(),
            now <= LATEST,
        ensures
            session.deadline == due_by(now, final(bridge)@),
            session.next_layout_probe == now + LAYOUT_PROBE,
            session.timely(final(bridge)@),
            final(bridge)@ == (if followed {
                old(bridge)@
            } else {
                BridgeView { layouts: None, ..old(bridge)@ }
            }),
            final(bridge)@.wf(),
    {
        if !followed {
            bridge.set_layouts(None);
        }
        Session { deadline: due(now, bridge), next_layout_probe: now + LAYOUT_PROBE }
    }

    /// Picks what comes first, and takes it off what has arrived.
    pub fn wake(&self, probing: bool, arrived: &mut Arrived, now: u128) -> (wake: Wake)
        ensures
            wake == self.first(probing, *old(arrived), now),
            *final(arrived) == (match wake {
                Wake::Change(_) => Arrived { change: None, event: old(arrived).event },
                Wake::Event(_) => Arrived { change: old(arrived).change, event: None },
                _ => *old(arrived),
            }),
    {
        if let Some(change) = arrived.change {
            arrived.change = None;
            return Wake::Change(change);
        }
        if probing && now >= self.next_layout_probe {
            return Wake::Probe;
        }
        if now >= self.deadline {
            return Wake::Beat;
        }
        if let Some(event) = arrived.event.take() {
            return Wake::Event(event);
        }
        if probing && self.next_layout_probe < self.deadline {
            Wake::Wait(self.next_layout_probe)
        } else {
            Wake::Wait(self.deadline)
        }
    }

    /// Turns to what came first.
    pub fn handle(&mut self, bridge: &mut Bridge, wake: Wake, now: u128) -> (step: Step)
        requires
            old(bridge)@.phase is Idle,
            old(bridge)@.wf(),
            now <= LATEST,
        ensures
            step == (match wake {
                Wake::Change(Change::Active(index)) => Step::Run(Job::Switched(index)),
                Wake::Change(Change::ListEdited) => Step::Run(Job::Edited),
                Wake::Change(Change::Lost) => Step::End(Ok(())),
                Wake::Change(Change::Unreadable) => Step::Again,
                Wake::Probe => Step::Connect,
                Wake::Beat => Step::Run(Job::Beat),
                Wake::Event(Ok(_)) => Step::Again,
                Wake::Event(Err(error)) => Step::End(Err(BridgeError::Herdr(error))),
                Wake::Wait(_) => Step::Again,
            }),
            *final(self) == (match wake {
                Wake::Probe => Session {
                    next_layout_probe: (now + LAYOUT_PROBE) as u128,
                    ..*old(self)
                },
                Wake::Event(Ok(_)) => old(self).hinted(now),
                _ => *old(self),
            }),
            final(bridge)@ == (if wake == Wake::Change(Change::Lost) {
                BridgeView { layouts: None, ..old(bridge)@ }
            } else {
                old(bridge)@
            }),
            final(bridge)@.wf(),
    {
        match wake {
            Wake::Change(change) => match change {
                Change::Active(index) => Step::Run(Job::Switched(index)),
                Change::ListEdited => Step::Run(Job::Edited),
                Change::Lost => {
                    // An ended stream is ready with nothing on every later look,
                    // so keeping it would spin the loop.
                    bridge.set_layouts(None);
                    Step::End(Ok(()))
                },
                Change::Unreadable => Step::Again,
            },
            Wake::Probe => {
                self.next_layout_probe = now + LAYOUT_PROBE;
                Step::Connect
            },
            Wake::Beat => Step::Run(Job::Beat),
            Wake::Event(Ok(_)) => {
                let soon: u128 = now + DEBOUNCE;
                if soon < self.deadline {
                    self.deadline = soon;
                }
                Step::Again
            },
            Wake::Event(Err(error)) => Step::End(Err(BridgeError::Herdr(error))),
            Wake::Wait(_) => Step::Again,
        }
    }

    /// Takes in how a job of the bridge ended. The next beat is a heartbeat
    /// away from the end of the last one, but comes no later than what was last
    /// sent has to be sent again: a beat without news puts nothing off.
    pub fn after_job(
        &mut self,
        bridge: &Bridge,
        job: Job,
        result: Result<(), BridgeError>,
        now: u128,
    ) -> (step: Step)
        requires
            now <= LATEST,
        ensures
            step == (match result {
                Ok(_) => Step::Again,
                Err(error) => Step::End(Err(error)),
            }),
            *final(self) == (if result is Ok {
                old(self).worked(bridge@, job, now)
            } else {
                *old(self)
            }),
            result is Ok ==> final(self).timely(bridge@),
    {
        match result {
            Ok(_) => {
                let time: u128 = match job {
                    Job::Beat => now + HEARTBEAT,
                    _ => self.deadline,
                };
                self.deadline = due(time, bridge);
                Step::Again
            },
            Err(error) => Step::End(Err(error)),
        }
    }

    /// Takes in whether the layout service was found. A new source ends the
    /// session, because the next one has to follow its signals.
    pub fn after_connect(
        &self,
        bridge: &mut Bridge,
        found: Result<KdeLayouts, LayoutError>,
    ) -> (step: Step)
        requires
            old(bridge)@.phase is Idle,
            old(bridge)@.wf(),
        ensures
            match found {
                Ok(layouts) => step == Step::End(Ok(())) && final(bridge)@ == (BridgeView {
                    layouts: Some(layouts@),
                    ..old(bridge)@
                }),
                Err(_) => step == Step::Again && final(bridge)@ == old(bridge)@,
            },
            final(bridge)@.wf(),
    {
        match found {
            Ok(layouts) => {
                bridge.set_layouts(Some(layouts));
                Step::End(Ok(()))
            },
            Err(_) => Step::Again,
        }
    }
}

/// A layout change comes before everything else.
pub proof fn law_layout_changes_come_first(
    session: Session,
    probing: bool,
    arrived: Arrived,
    now: u128,
)
    requires
        arrived.change is Some,
    ensures
        session.first(probing, arrived, now) == Wake::Change(arrived.change->0),
{
}

/// A beat that is due is never kept waiting by herdr's events: only a layout
/// change or a look for the layout service goes before it.
pub proof fn law_events_never_starve_the_beat(
    session: Session,
    probing: bool,
    arrived: Arrived,
    now: u128,
)
    requires
        now >= session.deadline,
        arrived.change is None,
        !(probing && now >= session.next_layout_probe),
    ensures
        session.first(probing, arrived, now) == Wake::Beat,
{
}

/// The look for the layout service cannot starve the beat either: it puts its
/// own next time off, so that the beat is what comes next.
pub proof fn law_the_probe_never_starves_the_beat(session: Session, arrived: Arrived, now: u128)
    requires
        now >= session.deadline,
        now <= LATEST,
        arrived.change is None,
    ensures
        ({
            let after = Session { next_layout_probe: (now + LAYOUT_PROBE) as u128, ..session };
            after.first(true, arrived, now) == Wake::Beat
        }),
{
}

/// Nobody oversleeps: a session that waits, waits for a time that is still to
/// come, and no longer than until the beat or the armed probe.
pub proof fn law_waiting_ends_in_time(
    session: Session,
    probing: bool,
    arrived: Arrived,
    now: u128,
)
    ensures
        session.first(probing, arrived, now) matches Wake::Wait(until) ==> now < until
            && until <= session.deadline && (probing ==> until <= session.next_layout_probe)
            && arrived.change is None && arrived.event is None,
{
}

/// A session after a run of events that arrived at the given times.
pub open spec fn after_events(session: Session, times: Seq<u128>) -> Session
    decreases times.len(),
{
    if times.len() == 0 {
        session
    } else {
        after_events(session, times.drop_last()).hinted(times.last())
    }
}

/// A burst pulls the next beat in and never pushes it out: however many events
/// follow the first, the beat is due where it was, or a debounce after the first
/// event, whichever is earlier.
pub proof fn law_a_burst_makes_one_beat(session: Session, times: Seq<u128>)
    requires
        times.len() > 0,
        forall|i: int| 0 <= i < times.len() ==> times[i] <= LATEST,
        forall|i: int, j: int| 0 <= i <= j < times.len() ==> times[i] <= times[j],
    ensures
        after_events(session, times) == session.hinted(times[0]),
        after_events(session, times).deadline <= session.deadline,
        after_events(session, times).deadline <= times[0] + DEBOUNCE,
    decreases times.len(),
{
    let earlier_times = times.drop_last();
    if earlier_times.len() == 0 {
        assert(after_events(session, earlier_times) == session);
    } else {
        law_a_burst_makes_one_beat(session, earlier_times);
        assert(times[0] <= times.last());
    }
}

/// On a live session the counts on the screen do not expire: as long as the beat
/// is not held up for longer than what is left of the firmware's patience, it
/// comes to its counts before the firmware has dropped the last ones.
pub proof fn law_counts_do_not_expire_between_beats(
    session: Session,
    bridge: BridgeView,
    sent_at: u128,
    counted_at: u128,
)
    requires
        session.timely(bridge),
        bridge.pushed.counts_at == Some(sent_at),
        counted_at - session.deadline < FIRMWARE_EXPIRY - HEARTBEAT,
    ensures
        counted_at - sent_at < FIRMWARE_EXPIRY,
{
}

/// Events leave the beat in time for what the dongle has, however many come.
pub proof fn law_events_put_nothing_off(
    session: Session,
    bridge: BridgeView,
    times: Seq<u128>,
)
    requires
        session.timely(bridge),
        forall|i: int| 0 <= i < times.len() ==> times[i] <= LATEST,
    ensures
        after_events(session, times).timely(bridge),
    decreases times.len(),
{
    if times.len() > 0 {
        law_events_put_nothing_off(session, bridge, times.drop_last());
    }
}

} // verus!
