//! What the daemon does in answer to each outcome, in terms of what it asks for
//! next and of what it remembers. Times are spelled out in nanoseconds.
use crate::bridge::{ActionView, BridgeView, ErrorView, Event, Job, Pushed};
use crate::bridge_conduct::{law_a_switch_is_acted_on, law_an_edit_is_followed, sets_the_layout};
use crate::daemon::{
    fresh, law_every_move_is_sound, DaemonView, Move, Outcome, RestView, Stage, TaskView,
};
use crate::herdr::{Events, HerdrError};
use crate::layout::{code_for, Change, KdeLayouts, LayoutError};
use crate::qube::QubeView;
use crate::session::{Arrived, Session};
use crate::supervisor::Supervisor;
use crate::time::LATEST;
use vstd::prelude::*;

verus! {

/// Whether the session has lasted a minute.
pub open spec fn lasted_a_minute(state: DaemonView, now: u128) -> bool {
    now >= state.started + 60_000_000_000
}

/// The session is given up for an error: after a pause there will be another one,
/// which opens the device anew and sends everything again. The pause is the
/// backoff, or a second after a session that lasted a minute, and the next one
/// is twice as long, up to half a minute.
pub open spec fn gives_up(
    step: Move,
    before: DaemonView,
    error: ErrorView,
    now: u128,
) -> bool {
    let pause = if lasted_a_minute(before, now) {
        1_000_000_000
    } else {
        before.supervisor.backoff
    };
    &&& step.1 == TaskView::Sleep(RestView::Retry(error, pause))
    &&& step.0 == (DaemonView {
        bridge: BridgeView {
            qube: QubeView { path: None, ..before.bridge.qube },
            pushed: Pushed {
                counts: None,
                counts_at: None,
                clock: None,
                layout: None,
                layout_at: None,
            },
            ..before.bridge
        },
        supervisor: step.0.supervisor,
        stage: Stage::Resting,
        ..before
    })
    &&& step.0.supervisor.backoff <= 30_000_000_000
    &&& step.0.supervisor.backoff == 2 * pause || (2 * pause > 30_000_000_000
        && step.0.supervisor.backoff == 30_000_000_000)
    &&& step.0.supervisor.rapid_restarts == (if lasted_a_minute(before, now) {
        0
    } else {
        before.supervisor.rapid_restarts
    })
}

/// The session is followed by another one that is built differently: at once, or
/// after a second from the fourth in a row on. Nothing that the dongle has is
/// forgotten.
pub open spec fn starts_over(step: Move, before: DaemonView, now: u128) -> bool {
    let in_a_row: int = if lasted_a_minute(before, now) {
        1
    } else {
        before.supervisor.rapid_restarts + 1
    };
    &&& step.0.supervisor.rapid_restarts == in_a_row
    &&& step.0.supervisor.backoff == (if lasted_a_minute(before, now) {
        1_000_000_000
    } else {
        before.supervisor.backoff
    })
    &&& if in_a_row <= 3 {
        &&& step.1 is Subscribe
        &&& step.0 == (DaemonView {
            supervisor: step.0.supervisor,
            started: now,
            arrived: Arrived { change: None, event: None },
            stage: Stage::Subscribing,
            ..before
        })
    } else {
        &&& step.1 == TaskView::Sleep(RestView::Flapping(1_000_000_000))
        &&& step.0 == (DaemonView {
            supervisor: step.0.supervisor,
            stage: Stage::Resting,
            ..before
        })
    }
}

/// The bridge is given a job, and what it asks for first is asked for. A job that
/// is over before anything had to be done leaves the daemon waiting.
pub open spec fn has_the_bridge_do(
    step: Move,
    before: DaemonView,
    stage: Stage,
    job: Job,
    now: u128,
) -> bool {
    let (bridge, action) = before.bridge.begun(job, now);
    if action is Done {
        &&& step.1 == TaskView::Wait(now)
        &&& step.0 == (DaemonView { bridge, stage: Stage::Waiting, ..before })
    } else {
        &&& step.1 == TaskView::Perform(action)
        &&& step.0 == (DaemonView { bridge, stage, ..before })
    }
}

/// Back to waiting, with a look at what may have arrived meanwhile.
pub open spec fn goes_on_waiting(step: Move, before: DaemonView, now: u128) -> bool {
    &&& step.1 == TaskView::Wait(now)
    &&& step.0 == (DaemonView { stage: Stage::Waiting, ..before })
}

/// A time that is the earliest of one that is given, of ten seconds after the
/// counts and, with a layout source, of ten seconds after the layout.
pub open spec fn earliest(deadline: u128, given: int, bridge: BridgeView) -> bool {
    let counts_at = bridge.pushed.counts_at;
    let layout_at = if bridge.layouts is Some {
        bridge.pushed.layout_at
    } else {
        None
    };
    &&& deadline <= given
    &&& counts_at is Some ==> deadline <= counts_at->0 + 10_000_000_000
    &&& layout_at is Some ==> deadline <= layout_at->0 + 10_000_000_000
    &&& {
        ||| deadline == given
        ||| counts_at is Some && deadline == counts_at->0 + 10_000_000_000
        ||| layout_at is Some && deadline == layout_at->0 + 10_000_000_000
    }
}

/// A session that has just begun: its first beat is due, and a missing layout
/// service is looked for in half a minute.
pub open spec fn session_begins(step: Move, before: DaemonView, now: u128) -> bool {
    &&& goes_on_waiting(step, DaemonView { session: step.0.session, ..before }, now)
    &&& earliest(step.0.session.deadline, now as int, before.bridge)
    &&& step.0.session.next_layout_probe == now + 30_000_000_000
}

/// The daemon is up: a single update makes the device ready, everything else
/// begins with a subscription.
pub open spec fn gets_going(step: Move, before: DaemonView, now: u128) -> bool {
    if before.once {
        has_the_bridge_do(step, before, Stage::Updating(Job::Ready), Job::Ready, now)
    } else {
        &&& step.1 is Subscribe
        &&& step.0 == (DaemonView {
            started: now,
            arrived: Arrived { change: None, event: None },
            stage: Stage::Subscribing,
            ..before
        })
    }
}

/// With another layout source, or none.
pub open spec fn following(state: DaemonView, layouts: Option<Seq<Seq<char>>>) -> DaemonView {
    DaemonView { bridge: BridgeView { layouts, ..state.bridge }, ..state }
}

/// Once it is known that the daemon is up, the layout service is looked for where
/// a layout is wanted, and the daemon gets going where not. Whether the service
/// was found makes no difference to getting going, but for the layouts.
pub proof fn law_the_daemon_gets_going(
    state: DaemonView,
    layouts: KdeLayouts,
    error: LayoutError,
    now: u128,
)
    requires
        state.wf(),
    ensures
        state.stage is Announcing && state.bridge.wants_layout ==> {
            let step = state.next(Outcome::Announced, now);
            step.1 is Connect && step.0 == (DaemonView { stage: Stage::Starting, ..state })
        },
        state.stage is Announcing && !state.bridge.wants_layout ==> gets_going(
            state.next(Outcome::Announced, now),
            state,
            now,
        ),
        state.stage is Starting ==> gets_going(
            state.next(Outcome::Connected(Ok(layouts)), now),
            following(state, Some(layouts@)),
            now,
        ),
        state.stage is Starting ==> gets_going(
            state.next(Outcome::Connected(Err(error)), now),
            state,
            now,
        ),
{
}

/// A subscription that stands is followed by taking up the signals of the layout
/// source, where there is one, and then the session begins. A source that cannot
/// be followed is let go of. A subscription that fails is a failed session.
pub proof fn law_a_session_comes_about(
    state: DaemonView,
    events: Events,
    error: HerdrError,
    followed: bool,
    now: u128,
)
    requires
        state.wf(),
        now <= LATEST,
    ensures
        state.stage is Subscribing ==> {
            let step = state.next(Outcome::Subscribed(Ok(events)), now);
            if state.bridge.layouts is Some {
                step.1 is Follow && step.0 == (DaemonView { stage: Stage::Following, ..state })
            } else {
                session_begins(step, state, now)
            }
        },
        state.stage is Subscribing ==> gives_up(
            state.next(Outcome::Subscribed(Err(error)), now),
            state,
            ErrorView::Herdr(error),
            now,
        ),
        state.stage is Following ==> session_begins(
            state.next(Outcome::Followed(followed), now),
            following(
                state,
                if followed {
                    state.bridge.layouts
                } else {
                    None
                },
            ),
            now,
        ),
        state.stage is Resting ==> {
            let step = state.next(Outcome::Rested, now);
            step.1 is Subscribe && step.0 == (DaemonView {
                started: now,
                arrived: Arrived { change: None, event: None },
                stage: Stage::Subscribing,
                ..state
            })
        },
{
}

/// What a waiting daemon turns to. A layout change comes first and is acted on: a
/// switch and an edit by the bridge, a lost source by starting over without it.
/// Then comes the look for a missing layout service that is wanted, every half
/// minute; then the beat, when it is due; then an event of herdr, which pulls
/// the beat in to three tenths of a second from now, or ends the session where
/// the stream has failed. Where there is none of this, the daemon waits for the
/// beat or the look, whichever is earlier.
pub proof fn law_what_arrives_is_acted_on(state: DaemonView, more: Arrived, now: u128)
    requires
        state.wf(),
        state.stage is Waiting,
        now <= LATEST,
        state.supervisor.rapid_restarts < u32::MAX,
    ensures
        ({
            let step = state.next(Outcome::Arrived(more), now);
            let change = if state.arrived.change is Some {
                state.arrived.change
            } else {
                more.change
            };
            let event = if state.arrived.event is Some {
                state.arrived.event
            } else {
                more.event
            };
            let looked = DaemonView { arrived: Arrived { change: None, event }, ..state };
            let missing = state.bridge.wants_layout && state.bridge.layouts is None;
            if change is Some {
                match change->0 {
                    Change::Active(index) => has_the_bridge_do(
                        step,
                        looked,
                        Stage::Working(Job::Switched(index)),
                        Job::Switched(index),
                        now,
                    ),
                    Change::ListEdited => has_the_bridge_do(
                        step,
                        looked,
                        Stage::Working(Job::Edited),
                        Job::Edited,
                        now,
                    ),
                    Change::Lost => starts_over(step, following(looked, None), now),
                    Change::Unreadable => goes_on_waiting(step, looked, now),
                }
            } else if missing && now >= state.session.next_layout_probe {
                &&& step.1 is Connect
                &&& step.0 == (DaemonView {
                    session: Session {
                        next_layout_probe: (now + 30_000_000_000) as u128,
                        ..state.session
                    },
                    stage: Stage::Probing,
                    ..looked
                })
            } else if now >= state.session.deadline {
                has_the_bridge_do(step, looked, Stage::Working(Job::Beat), Job::Beat, now)
            } else if event is Some {
                let heard = DaemonView {
                    arrived: Arrived { change: None, event: None },
                    ..state
                };
                match event->0 {
                    Ok(_) => {
                        let deadline = step.0.session.deadline;
                        &&& goes_on_waiting(
                            step,
                            DaemonView {
                                session: Session { deadline, ..state.session },
                                ..heard
                            },
                            now,
                        )
                        &&& deadline <= state.session.deadline
                        &&& deadline <= now + 300_000_000
                        &&& deadline == state.session.deadline || deadline == now + 300_000_000
                    },
                    Err(error) => gives_up(step, heard, ErrorView::Herdr(error), now),
                }
            } else {
                &&& step.0 == looked
                &&& step.1 matches TaskView::Wait(until)
                &&& until <= state.session.deadline
                &&& missing ==> until <= state.session.next_layout_probe
                &&& until == state.session.deadline || (missing && until
                    == state.session.next_layout_probe)
            }
        }),
{
}

/// A look for the layout service that finds it starts over with it, and one that
/// does not changes nothing.
pub proof fn law_a_service_that_appears_is_taken_up(
    state: DaemonView,
    layouts: KdeLayouts,
    error: LayoutError,
    now: u128,
)
    requires
        state.wf(),
        state.stage is Probing,
        state.supervisor.rapid_restarts < u32::MAX,
    ensures
        starts_over(
            state.next(Outcome::Connected(Ok(layouts)), now),
            following(state, Some(layouts@)),
            now,
        ),
        goes_on_waiting(state.next(Outcome::Connected(Err(error)), now), state, now),
{
}

/// What the bridge asks for is asked for, and the end of its job ends what the
/// daemon gave it. In a session, a job that went well leads back to waiting, with
/// the next beat ten seconds off, or sooner where the dongle has to hear again
/// sooner; a job that failed, whatever it was and whatever failed about it, gives
/// the session up. In a single update, a device that was made ready is followed
/// by a beat, and the beat by the end; a failure is the end as well.
pub proof fn law_the_end_of_a_job_is_taken_in(state: DaemonView, event: Event, now: u128)
    requires
        state.wf(),
        state.awaits(Outcome::Performed(event)),
        now <= LATEST,
    ensures
        ({
            let step = state.next(Outcome::Performed(event), now);
            let (bridge, action) = state.bridge.next(event, now);
            let told = DaemonView { bridge, ..state };
            match action {
                ActionView::Done(result) => match state.stage {
                    Stage::Working(job) => match result {
                        Ok(_) => {
                            let deadline = step.0.session.deadline;
                            &&& goes_on_waiting(
                                step,
                                DaemonView { session: Session { deadline, ..state.session }, ..told },
                                now,
                            )
                            &&& earliest(
                                deadline,
                                if job is Beat {
                                    now + 10_000_000_000
                                } else {
                                    state.session.deadline as int
                                },
                                bridge,
                            )
                        },
                        Err(error) => gives_up(step, told, error, now),
                    },
                    Stage::Updating(Job::Ready) => if result is Ok {
                        has_the_bridge_do(step, told, Stage::Updating(Job::Beat), Job::Beat, now)
                    } else {
                        &&& step.1 == TaskView::Exit(result)
                        &&& step.0 == (DaemonView { stage: Stage::Over, ..told })
                    },
                    _ => {
                        &&& step.1 == TaskView::Exit(result)
                        &&& step.0 == (DaemonView { stage: Stage::Over, ..told })
                    },
                },
                action => {
                    &&& step.1 == TaskView::Perform(action)
                    &&& step.0 == told
                },
            }
        }),
{
}

/// A switch that the desktop signals reaches the keyboard at once: with the device
/// open and a code for the layout at that index, what the daemon asks for is that
/// this code be written, before the beat and before everything else.
pub proof fn law_a_switch_reaches_the_keyboard(
    state: DaemonView,
    more: Arrived,
    index: u32,
    code: u8,
    now: u128,
)
    requires
        state.wf(),
        state.stage is Waiting,
        now <= LATEST,
        state.supervisor.rapid_restarts < u32::MAX,
        state.bridge.qube.path is Some,
        state.bridge.layouts matches Some(names) && index < names.len() && code_for(
            names[index as int],
        ) == Some(code),
        state.arrived.change == Some(Change::Active(index)) || (state.arrived.change is None
            && more.change == Some(Change::Active(index))),
    ensures
        state.next(Outcome::Arrived(more), now).1 matches TaskView::Perform(
            ActionView::Write(report, _),
        ) && sets_the_layout(report, code),
{
    law_what_arrives_is_acted_on(state, more, now);
    law_a_switch_is_acted_on(state.bridge, index, now);
}

/// An edit of the layout list is followed at once: the list is asked for.
pub proof fn law_an_edit_has_the_list_asked_for(state: DaemonView, more: Arrived, now: u128)
    requires
        state.wf(),
        state.stage is Waiting,
        now <= LATEST,
        state.supervisor.rapid_restarts < u32::MAX,
        state.bridge.layouts is Some,
        state.arrived.change == Some(Change::ListEdited) || (state.arrived.change is None
            && more.change == Some(Change::ListEdited)),
    ensures
        state.next(Outcome::Arrived(more), now).1 == TaskView::Perform(ActionView::AskList),
{
    law_what_arrives_is_acted_on(state, more, now);
    law_an_edit_is_followed(state.bridge, None, now, now);
}

/// A daemon at the start: nothing is open, nobody was patient with anything yet,
/// and the options are as they were given.
pub proof fn law_a_daemon_starts_clean(bridge: BridgeView, once: bool, now: u128)
    ensures
        ({
            let state = fresh(bridge, once, now);
            &&& state.bridge == bridge
            &&& state.once == once
            &&& state.stage is Announcing
            &&& state.started == now
            &&& state.supervisor == (Supervisor { backoff: 1_000_000_000, rapid_restarts: 0 })
            &&& state.arrived == (Arrived { change: None, event: None })
        }),
{
}

/// Whatever is asked for, any outcome of it is one that the daemon is waiting for.
pub proof fn law_outcomes_are_awaited(
    state: DaemonView,
    outcome: Outcome,
    event: Event,
    now: u128,
    found: Result<KdeLayouts, LayoutError>,
    events: Result<Events, HerdrError>,
    followed: bool,
    arrived: Arrived,
)
    requires
        state.wf(),
        state.awaits(outcome),
        now <= LATEST,
        state.supervisor.rapid_restarts < u32::MAX,
    ensures
        ({
            let (after, task) = state.next(outcome, now);
            &&& task is Connect ==> after.awaits(Outcome::Connected(found))
            &&& task is Subscribe ==> after.awaits(Outcome::Subscribed(events))
            &&& task is Follow ==> after.awaits(Outcome::Followed(followed))
            &&& task is Wait ==> after.awaits(Outcome::Arrived(arrived))
            &&& task is Sleep ==> after.awaits(Outcome::Rested)
            &&& task is Perform && after.bridge.awaits(event) ==> after.awaits(
                Outcome::Performed(event),
            )
            &&& task is Exit ==> after.stage is Over
        }),
{
    law_every_move_is_sound(state, outcome, now);
}

} // verus!
