//! What holds over whole courses of the daemon, from its start on, whatever the
//! outcomes are that it is handed.
use crate::bridge::{no_layout_goal, ActionView, BridgeView, Event, Job, HEARTBEAT, LAYOUT_REFRESH};
use crate::bridge_laws::{
    law_a_packet_is_of_its_kind, law_counts_are_remembered, law_every_turn_is_consistent,
};
use crate::daemon::{
    fresh, joined, law_every_move_is_sound, law_nobody_waits_past_the_heartbeat, DaemonView,
    Outcome, TaskView,
};
use crate::layout::{Change, KdeLayouts};
use crate::options::Options;
use crate::qube::{PACKET_CLOCK, PACKET_LAYOUT};
use crate::session::{probing, Arrived, Wake};
use crate::time::LATEST;
use vstd::prelude::*;

verus! {

/// Outcomes in their order, each with the time at which it came.
pub type Course = Seq<(Outcome, u128)>;

/// The daemon once a course has been gone through.
pub open spec fn after(start: DaemonView, course: Course) -> DaemonView
    decreases course.len(),
{
    if course.len() == 0 {
        start
    } else {
        after(start, course.drop_last()).next(course.last().0, course.last().1).0
    }
}

/// What the last outcome of a course has the daemon ask for.
pub open spec fn asked(start: DaemonView, course: Course) -> TaskView {
    after(start, course.drop_last()).next(course.last().0, course.last().1).1
}

/// Whether every outcome of a course is one that the daemon was waiting for, and
/// neither the clock nor a counter runs over on the way.
pub open spec fn possible(start: DaemonView, course: Course) -> bool
    decreases course.len(),
{
    course.len() > 0 ==> {
        let before = after(start, course.drop_last());
        &&& possible(start, course.drop_last())
        &&& before.awaits(course.last().0)
        &&& course.last().1 <= LATEST
        &&& before.supervisor.rapid_restarts < u32::MAX
    }
}

/// Whatever happens, the daemon stays sound.
pub proof fn law_every_course_is_sound(start: DaemonView, course: Course)
    requires
        start.wf(),
        possible(start, course),
    ensures
        after(start, course).wf(),
    decreases course.len(),
{
    if course.len() > 0 {
        law_every_course_is_sound(start, course.drop_last());
        law_every_move_is_sound(
            after(start, course.drop_last()),
            course.last().0,
            course.last().1,
        );
    }
}

/// The heartbeat is never put off: whenever the daemon waits, its next beat is
/// due no later than a heartbeat after the counts that the dongle has, and,
/// where there is a layout source, no later than a refresh after its last
/// layout, whatever events came before.
pub proof fn law_the_heartbeat_is_never_put_off(start: DaemonView, course: Course)
    requires
        start.wf(),
        possible(start, course),
        after(start, course).stage is Waiting,
    ensures
        ({
            let waiting = after(start, course);
            &&& waiting.bridge.pushed.counts_at matches Some(at) ==> waiting.session.deadline <= at
                + HEARTBEAT
            &&& waiting.bridge.layouts is Some && waiting.bridge.pushed.layout_at is Some
                ==> waiting.session.deadline <= waiting.bridge.pushed.layout_at->0 + LAYOUT_REFRESH
        }),
{
    law_every_course_is_sound(start, course);
}

/// When the last outcome of a course came.
pub open spec fn reached(began: u128, course: Course) -> u128 {
    if course.len() == 0 {
        began
    } else {
        course.last().1
    }
}

/// Whether a course loses no time: nothing but waiting takes any, a wait ends
/// when it is told to or earlier, and no session had to be given up for a while.
pub open spec fn swift(start: DaemonView, began: u128, course: Course) -> bool
    decreases course.len(),
{
    course.len() > 0 ==> {
        let earlier = course.drop_last();
        let before = reached(began, earlier);
        let now = course.last().1;
        &&& swift(start, began, earlier)
        &&& earlier.len() == 0 ==> now == before
        &&& earlier.len() > 0 ==> match asked(start, earlier) {
            TaskView::Wait(until) => before <= now && (now <= before || now <= until),
            TaskView::Sleep(_) => false,
            _ => now == before,
        }
    }
}

/// The heartbeat is kept: where no time is lost, the counts that the dongle has
/// are at no time older than a heartbeat, whenever events come in.
pub proof fn law_the_heartbeat_is_kept(
    bridge: BridgeView,
    once: bool,
    began: u128,
    course: Course,
    at: u128,
)
    requires
        bridge.wf(),
        bridge.phase is Idle,
        bridge.qube.path is None,
        bridge.pushed.counts_at is None,
        possible(fresh(bridge, once, began), course),
        swift(fresh(bridge, once, began), began, course),
        after(fresh(bridge, once, began), course).bridge.pushed.counts_at == Some(at),
    ensures
        reached(began, course) <= at + HEARTBEAT,
    decreases course.len(),
{
    let start = fresh(bridge, once, began);
    if course.len() > 0 {
        let earlier = course.drop_last();
        let state = after(start, earlier);
        law_every_course_is_sound(start, earlier);
        lemma_counts_time(state, course.last().0, course.last().1);
        if state.bridge.pushed.counts_at == Some(at) {
            law_the_heartbeat_is_kept(bridge, once, began, earlier, at);
            if earlier.len() > 0 {
                assert(possible(start, earlier));
                law_every_course_is_sound(start, earlier.drop_last());
                law_nobody_waits_past_the_heartbeat(
                    after(start, earlier.drop_last()),
                    earlier.last().0,
                    earlier.last().1,
                );
            }
        }
    }
}

/// The time of the last counts changes in two ways only: they are forgotten, or
/// they are sent now.
proof fn lemma_counts_time(state: DaemonView, outcome: Outcome, now: u128)
    requires
        state.wf(),
        state.awaits(outcome),
    ensures
        ({
            let counts_at = state.next(outcome, now).0.bridge.pushed.counts_at;
            counts_at == state.bridge.pushed.counts_at || counts_at is None || counts_at == Some(
                now,
            )
        }),
{
    if let Outcome::Performed(event) = outcome {
        law_counts_are_remembered(state.bridge, event, now);
    }
}

/// Whether a task has nothing to do with the layout.
pub open spec fn spares_the_layout(task: TaskView) -> bool {
    match task {
        TaskView::Connect => false,
        TaskView::Follow => false,
        TaskView::Perform(ActionView::AskIndex) => false,
        TaskView::Perform(ActionView::AskList) => false,
        TaskView::Perform(ActionView::Write(report, _)) => report[1] != PACKET_LAYOUT,
        _ => true,
    }
}

/// Whether a task has nothing to do with the clock.
pub open spec fn spares_the_clock(task: TaskView) -> bool {
    match task {
        TaskView::Perform(ActionView::ReadClock) => false,
        TaskView::Perform(ActionView::Write(report, _)) => report[1] != PACKET_CLOCK,
        _ => true,
    }
}

/// A daemon that has nothing to do with the layout.
spec fn layoutless(state: DaemonView) -> bool {
    &&& bare(state.bridge)
    &&& !(state.stage is Starting) && !(state.stage is Following) && !(state.stage is Probing)
}

/// A bridge that has nothing to do with the layout.
spec fn bare(bridge: BridgeView) -> bool {
    &&& !bridge.wants_layout
    &&& bridge.layouts is None
    &&& !(bridge.phase is LayoutWrite)
    &&& no_layout_goal(bridge.phase)
}

/// A daemon that has nothing to do with the clock.
spec fn clockless(state: DaemonView) -> bool {
    !state.bridge.clock
}

proof fn lemma_bare_turns(bridge: BridgeView, job: Job, event: Event, now: u128)
    requires
        bridge.wf(),
        bare(bridge),
    ensures
        bridge.phase is Idle ==> bare(bridge.begun(job, now).0) && spares_the_layout(
            TaskView::Perform(bridge.begun(job, now).1),
        ),
        bridge.awaits(event) ==> bare(bridge.next(event, now).0) && spares_the_layout(
            TaskView::Perform(bridge.next(event, now).1),
        ),
{
    law_a_packet_is_of_its_kind(bridge, job, event, now);
}

proof fn lemma_clockless_turns(bridge: BridgeView, job: Job, event: Event, now: u128)
    requires
        bridge.wf(),
        !bridge.clock,
    ensures
        bridge.phase is Idle ==> !bridge.begun(job, now).0.clock && spares_the_clock(
            TaskView::Perform(bridge.begun(job, now).1),
        ),
        bridge.awaits(event) ==> !bridge.next(event, now).0.clock && spares_the_clock(
            TaskView::Perform(bridge.next(event, now).1),
        ),
{
    law_a_packet_is_of_its_kind(bridge, job, event, now);
}

/// The job that a look at what has arrived begins, if any.
spec fn next_job(state: DaemonView, more: Arrived, now: u128) -> Job {
    match state.session.first(probing(state.bridge), joined(state.arrived, more), now) {
        Wake::Change(Change::Active(index)) => Job::Switched(index),
        Wake::Change(Change::ListEdited) => Job::Edited,
        _ => Job::Beat,
    }
}

proof fn lemma_layoutless_moves(state: DaemonView, outcome: Outcome, now: u128)
    requires
        state.wf(),
        state.awaits(outcome),
        layoutless(state),
    ensures
        layoutless(state.next(outcome, now).0),
        spares_the_layout(state.next(outcome, now).1),
{
    let idle = Event::Clock(0, 0);
    match outcome {
        Outcome::Announced => lemma_bare_turns(state.bridge, Job::Ready, idle, now),
        Outcome::Performed(event) => {
            lemma_bare_turns(state.bridge, Job::Beat, event, now);
            let turn = state.bridge.next(event, now);
            law_every_turn_is_consistent(state.bridge, Job::Beat, event, now);
            if turn.1 is Done {
                lemma_bare_turns(turn.0, Job::Beat, idle, now);
            }
        },
        Outcome::Arrived(more) => {
            lemma_bare_turns(state.bridge, next_job(state, more, now), idle, now);
        },
        _ => {},
    }
}

proof fn lemma_clockless_moves(state: DaemonView, outcome: Outcome, now: u128)
    requires
        state.wf(),
        state.awaits(outcome),
        clockless(state),
    ensures
        clockless(state.next(outcome, now).0),
        spares_the_clock(state.next(outcome, now).1),
{
    let idle = Event::Index(None);
    match outcome {
        Outcome::Announced => lemma_clockless_turns(state.bridge, Job::Ready, idle, now),
        Outcome::Connected(Ok(layouts)) => {
            lemma_clockless_turns(
                BridgeView { layouts: Some(layouts@), ..state.bridge },
                Job::Ready,
                idle,
                now,
            );
        },
        Outcome::Connected(Err(_)) => {
            lemma_clockless_turns(state.bridge, Job::Ready, idle, now);
        },
        Outcome::Performed(event) => {
            lemma_clockless_turns(state.bridge, Job::Beat, event, now);
            let turn = state.bridge.next(event, now);
            law_every_turn_is_consistent(state.bridge, Job::Beat, event, now);
            if turn.1 is Done {
                lemma_clockless_turns(turn.0, Job::Beat, idle, now);
            }
        },
        Outcome::Arrived(more) => {
            lemma_clockless_turns(state.bridge, next_job(state, more, now), idle, now);
        },
        _ => {},
    }
}

proof fn lemma_layoutless_course(start: DaemonView, course: Course)
    requires
        start.wf(),
        layoutless(start),
        possible(start, course),
    ensures
        layoutless(after(start, course)),
        course.len() > 0 ==> spares_the_layout(asked(start, course)),
    decreases course.len(),
{
    if course.len() > 0 {
        lemma_layoutless_course(start, course.drop_last());
        law_every_course_is_sound(start, course.drop_last());
        lemma_layoutless_moves(
            after(start, course.drop_last()),
            course.last().0,
            course.last().1,
        );
    }
}

proof fn lemma_clockless_course(start: DaemonView, course: Course)
    requires
        start.wf(),
        clockless(start),
        possible(start, course),
    ensures
        clockless(after(start, course)),
        course.len() > 0 ==> spares_the_clock(asked(start, course)),
    decreases course.len(),
{
    if course.len() > 0 {
        lemma_clockless_course(start, course.drop_last());
        law_every_course_is_sound(start, course.drop_last());
        lemma_clockless_moves(
            after(start, course.drop_last()),
            course.last().0,
            course.last().1,
        );
    }
}

/// `--no-layout` means what it says: however long the daemon runs and whatever
/// happens, it neither looks for the layout service nor follows it, asks for no
/// layout and sends none.
pub proof fn law_no_layout_means_no_layout(
    options: Options,
    layouts: Option<KdeLayouts>,
    now: u128,
    course: Course,
)
    requires
        options.no_layout,
        possible(fresh(options.wanted(layouts), options.once, now), course),
        course.len() > 0,
    ensures
        spares_the_layout(asked(fresh(options.wanted(layouts), options.once, now), course)),
{
    lemma_layoutless_course(fresh(options.wanted(layouts), options.once, now), course);
}

/// `--no-clock` means what it says: however long the daemon runs and whatever
/// happens, it neither reads the clock nor sends it.
pub proof fn law_no_clock_means_no_clock(
    options: Options,
    layouts: Option<KdeLayouts>,
    now: u128,
    course: Course,
)
    requires
        options.no_clock,
        possible(fresh(options.wanted(layouts), options.once, now), course),
        course.len() > 0,
    ensures
        spares_the_clock(asked(fresh(options.wanted(layouts), options.once, now), course)),
{
    lemma_clockless_course(fresh(options.wanted(layouts), options.once, now), course);
}

} // verus!
