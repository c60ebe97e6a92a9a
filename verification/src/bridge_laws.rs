//! What holds of the bridge whatever happens.
use crate::bridge::{
    consistent, ActionView, Asker, BridgeView, ErrorView, Event, Goal, Job, News, Phase, Pushed,
    Stage, Turn, HEARTBEAT, LAYOUT_REFRESH,
};
use crate::herdr::AgentCounts;
use crate::layout::{code_at, code_for};
use crate::qube::{
    agents_bytes, clock_bytes, layout_bytes, report_of, PACKET_AGENTS, PACKET_CLOCK, PACKET_LAYOUT,
};
use crate::time::overdue;
use vstd::prelude::*;

verus! {

/// Whatever happens, the bridge stays sound, and what it asks for is what it
/// then waits for.
pub proof fn law_every_turn_is_consistent(state: BridgeView, job: Job, event: Event, now: u128)
    requires
        state.wf(),
    ensures
        state.phase is Idle ==> consistent(state.begun(job, now)),
        state.awaits(event) ==> consistent(state.next(event, now)),
{
}

/// Packets are only written to an open device.
pub proof fn law_packets_go_to_an_open_device(
    state: BridgeView,
    job: Job,
    event: Event,
    now: u128,
)
    requires
        state.wf(),
    ensures
        state.phase is Idle && state.begun(job, now).1 is Write ==> state.begun(
            job,
            now,
        ).0.qube.path is Some,
        state.awaits(event) && state.next(event, now).1 is Write ==> state.next(
            event,
            now,
        ).0.qube.path is Some,
{
}

/// How many outcomes are at most still to come in a phase.
pub open spec fn steps_left(phase: Phase) -> nat {
    match phase {
        Phase::Idle => 0,
        Phase::CountsWrite(_) => 1,
        Phase::Counts => 2,
        Phase::LayoutWrite(Asker::Signal, _) => 1,
        Phase::LayoutWrite(Asker::Beat, _) => 3,
        Phase::List(Asker::Beat, _) => 4,
        Phase::Index(Asker::Beat) => 5,
        Phase::ClockWrite(Stage::Beat, _, _) => 6,
        Phase::Clock(Stage::Beat) => 7,
        Phase::LayoutWrite(Asker::Resync(_), _) => 8,
        Phase::List(Asker::Resync(_), _) => 9,
        Phase::Index(Asker::Resync(_)) => 10,
        Phase::ClockWrite(Stage::Resync(_), _, _) => 11,
        Phase::Clock(Stage::Resync(_)) => 12,
        Phase::Opening(_) => 13,
        Phase::Searching(_) => 14,
        Phase::List(Asker::Signal, _) => 15,
        Phase::Index(Asker::Signal) => 16,
        Phase::Names => 17,
    }
}

/// Every job comes to an end: each outcome either finishes it or leaves fewer
/// outcomes to wait for.
pub proof fn law_every_job_ends(state: BridgeView, event: Event, now: u128)
    requires
        state.wf(),
        state.awaits(event),
    ensures
        steps_left(state.next(event, now).0.phase) < steps_left(state.phase),
        steps_left(state.next(event, now).0.phase) == 0 <==> state.next(event, now).1 is Done,
{
}

/// A packet with the agent counts is spent exactly when the counts differ from
/// what the dongle has, or when the heartbeat is due.
pub proof fn law_counts_are_sent_on_change_or_heartbeat(
    state: BridgeView,
    counts: AgentCounts,
    now: u128,
)
    requires
        state.phase is Counts,
    ensures
        state.next(Event::Counts(Ok(counts)), now).1 is Write <==> (state.pushed.counts != Some(
            counts,
        ) || overdue(state.pushed.counts_at, now, HEARTBEAT)),
        state.next(Event::Counts(Ok(counts)), now).1 matches ActionView::Write(report, _)
            ==> report == report_of(agents_bytes(counts)),
        state.next(Event::Counts(Ok(counts)), now).1 is Write || state.next(
            Event::Counts(Ok(counts)),
            now,
        ).1 == ActionView::Done(Ok(())),
{
}

/// The list of agents is the truth: a beat that gets to its end leaves the
/// dongle with the counts that herdr gave on that very beat, whatever events
/// came, went missing or changed places before it.
pub proof fn law_a_beat_leaves_the_counts_of_the_list(
    state: BridgeView,
    counts: AgentCounts,
    counted_at: u128,
    written_at: u128,
)
    requires
        state.phase is Counts,
    ensures
        ({
            let (counted, action) = state.next(Event::Counts(Ok(counts)), counted_at);
            let (written, over) = counted.next(Event::Wrote(Ok(())), written_at);
            match action {
                ActionView::Done(result) => result is Ok && counted.pushed.counts == Some(counts),
                _ => over == ActionView::Done(Ok(())) && written.pushed.counts == Some(counts),
            }
        }),
{
}

/// Whether a phase belongs to a beat.
pub open spec fn beating(phase: Phase) -> bool {
    match phase {
        Phase::Searching(goal) => goal is Beat,
        Phase::Opening(goal) => goal is Beat,
        Phase::Clock(Stage::Resync(goal)) => goal is Beat,
        Phase::ClockWrite(Stage::Resync(goal), _, _) => goal is Beat,
        Phase::Index(Asker::Resync(goal)) => goal is Beat,
        Phase::List(Asker::Resync(goal), _) => goal is Beat,
        Phase::LayoutWrite(Asker::Resync(goal), _) => goal is Beat,
        Phase::Index(asker) => asker is Beat,
        Phase::List(asker, _) => asker is Beat,
        Phase::LayoutWrite(asker, _) => asker is Beat,
        Phase::Clock(_) => true,
        Phase::ClockWrite(_, _, _) => true,
        Phase::Counts => true,
        Phase::CountsWrite(_) => true,
        Phase::Idle => false,
        Phase::Names => false,
    }
}

/// A beat that comes when the heartbeat is due does not end well without having
/// sent the counts, and until it ends the heartbeat stays due.
pub proof fn law_a_due_beat_sends_the_counts(state: BridgeView, event: Event, now: u128)
    requires
        state.wf(),
        state.awaits(event),
        beating(state.phase),
        overdue(state.pushed.counts_at, now, HEARTBEAT),
    ensures
        ({
            let (after, action) = state.next(event, now);
            &&& action matches ActionView::Done(Ok(_)) ==> {
                &&& event matches Event::Wrote(Ok(_))
                &&& state.phase matches Phase::CountsWrite(counts)
                &&& after.pushed.counts == Some(counts)
                &&& after.pushed.counts_at == Some(now)
            }
            &&& !(action is Done) ==> beating(after.phase) && (after.pushed.counts_at
                == state.pushed.counts_at || after.pushed.counts_at is None)
        }),
{
}

/// The kind of a packet follows from what is being written.
pub proof fn law_a_packet_is_of_its_kind(
    state: BridgeView,
    job: Job,
    event: Event,
    now: u128,
)
    requires
        state.wf(),
    ensures
        state.phase is Idle ==> of_its_kind(state.begun(job, now)),
        state.awaits(event) ==> of_its_kind(state.next(event, now)),
{
}

/// Whether the report that is written, if any, carries the kind of packet that
/// the phase says.
pub open spec fn of_its_kind(turn: Turn) -> bool {
    turn.1 matches ActionView::Write(report, _) ==> match turn.0.phase {
        Phase::ClockWrite(_, _, _) => report[1] == PACKET_CLOCK,
        Phase::LayoutWrite(_, _) => report[1] == PACKET_LAYOUT,
        Phase::CountsWrite(_) => report[1] == PACKET_AGENTS,
        _ => false,
    }
}

/// A pinned device settles which node is written to: nothing is searched for.
pub proof fn law_a_pinned_device_is_never_searched_for(
    state: BridgeView,
    job: Job,
    event: Event,
    now: u128,
)
    requires
        state.wf(),
        state.qube.pinned is Some,
    ensures
        state.phase is Idle ==> !(state.begun(job, now).1 is Search),
        state.awaits(event) ==> !(state.next(event, now).1 is Search),
        state.awaits(event) ==> state.next(event, now).0.qube.pinned == state.qube.pinned,
{
}

/// A beat without news is silent: where the dongle has the right minute, the
/// counts are the same and neither the layout nor the heartbeat is due, not a
/// single packet goes out, and the bridge is left as it was.
pub proof fn law_a_quiet_beat_writes_nothing(
    state: BridgeView,
    hour: u8,
    minute: u8,
    counts: AgentCounts,
    begun_at: u128,
    read_at: u128,
    counted_at: u128,
)
    requires
        state.phase is Idle,
        state.opening is None,
        state.qube.path is Some,
        state.clock,
        state.pushed.clock == Some((hour, minute)),
        !overdue(state.pushed.layout_at, read_at, LAYOUT_REFRESH),
        state.pushed.counts == Some(counts),
        !overdue(state.pushed.counts_at, counted_at, HEARTBEAT),
    ensures
        ({
            let (first, ask_clock) = state.begun(Job::Beat, begun_at);
            let (second, ask_counts) = first.next(Event::Clock(hour, minute), read_at);
            let (third, over) = second.next(Event::Counts(Ok(counts)), counted_at);
            &&& ask_clock is ReadClock
            &&& ask_counts is FetchCounts
            &&& over == ActionView::Done(Ok(()))
            &&& third == state
        }),
{
}

/// A device that was just opened gets the clock and the layout again, whatever
/// was last sent, and the counts are forgotten so that they follow.
pub proof fn law_an_opened_device_gets_everything_again(
    state: BridgeView,
    goal: Goal,
    hour: u8,
    minute: u8,
    index: u32,
    code: u8,
    opened_at: u128,
    read_at: u128,
    clock_at: u128,
    index_at: u128,
    layout_at: u128,
)
    requires
        state.wf(),
        state.phase == Phase::Opening(goal),
        state.clock,
        state.layouts matches Some(names) && code_at(names, index) == Some(code),
    ensures
        ({
            let (first, ask_clock) = state.next(Event::Opened(Ok(())), opened_at);
            let (second, set_clock) = first.next(Event::Clock(hour, minute), read_at);
            let (third, ask_index) = second.next(Event::Wrote(Ok(())), clock_at);
            let (fourth, set_layout) = third.next(Event::Index(Some(index)), index_at);
            let (last, action) = fourth.next(Event::Wrote(Ok(())), layout_at);
            let synced = BridgeView {
                qube: state.qube.opened(state.opening->0).wrote().wrote(),
                opening: None,
                phase: fourth.phase,
                pushed: Pushed {
                    counts: None,
                    counts_at: None,
                    clock: Some((hour, minute)),
                    layout: Some(code),
                    layout_at: Some(layout_at),
                },
                ..state
            };
            &&& ask_clock is ReadClock
            &&& set_clock == ActionView::Write(report_of(clock_bytes(hour, minute)), None)
            &&& ask_index is AskIndex
            &&& set_layout == ActionView::Write(
                report_of(layout_bytes(code)),
                Some(News::Layout(code)),
            )
            &&& (last, action) == synced.ready(goal, layout_at)
        }),
{
}

/// What is remembered of the counts changes in two places only: opening the
/// device forgets them, and a counts packet that arrived records them.
pub proof fn law_counts_are_remembered(state: BridgeView, event: Event, now: u128)
    requires
        state.wf(),
        state.awaits(event),
    ensures
        ({
            let after = state.next(event, now).0.pushed;
            match (state.phase, event) {
                (Phase::Opening(_), Event::Opened(Ok(_))) => after.counts is None
                    && after.counts_at is None,
                (Phase::CountsWrite(counts), Event::Wrote(Ok(_))) => after.counts == Some(counts)
                    && after.counts_at == Some(now),
                _ => after.counts == state.pushed.counts && after.counts_at
                    == state.pushed.counts_at,
            }
        }),
{
}

/// Asking for the layout on the beat is rate-limited, whether or not there was
/// an answer, and whether or not the firmware has a code for it: once the
/// service was asked, a beat within the refresh span asks nothing of it.
pub proof fn law_layout_refreshes_are_rate_limited(
    state: BridgeView,
    code: Option<u8>,
    asked_at: u128,
    later: u128,
)
    requires
        later - asked_at < LAYOUT_REFRESH,
    ensures
        state.resolved(Asker::Beat, code, asked_at).0.pushed.layout_at == Some(asked_at),
        ({
            let stamped = state.resolved(Asker::Beat, code, asked_at).0;
            stamped.beat_layout(later).1 is FetchCounts
        }),
{
}

/// A layout the firmware has no code for leaves the last known one in place:
/// nothing is sent for it and nothing is recorded.
pub proof fn law_an_unknown_layout_keeps_the_last_one(
    state: BridgeView,
    asker: Asker,
    now: u128,
)
    ensures
        state.resolved(asker, None, now).0.pushed.layout == state.pushed.layout,
        state.resolved(Asker::Signal, None, now) == state.finished(Ok(())),
        state.resolved(Asker::Beat, None, now).1 is FetchCounts,
        asker matches Asker::Resync(goal) ==> state.resolved(asker, None, now) == state.ready(
            goal,
            now,
        ),
{
}

/// A layout change is on its way to an open device at once: nothing is asked
/// or written before it when the list of layouts is known.
pub proof fn law_a_layout_switch_goes_out_first(state: BridgeView, index: u32, now: u128)
    requires
        state.wf(),
        state.phase is Idle,
        state.qube.path is Some,
        state.layouts matches Some(names) && index < names.len(),
    ensures
        match code_at(state.layouts->0, index) {
            Some(code) => state.begun(Job::Switched(index), now).1 matches ActionView::Write(
                report,
                _,
            ) && report == report_of(layout_bytes(code)),
            None => state.begun(Job::Switched(index), now).1 == ActionView::Done(Ok(())),
        },
{
}

/// A failed write lets go of the device, ends the job with the reason, and the
/// next job begins by opening the device again.
pub proof fn law_a_failed_write_reopens_the_device(
    state: BridgeView,
    cause: String,
    now: u128,
    later: u128,
)
    requires
        state.wf(),
        state.awaits(Event::Wrote(Err(cause))),
    ensures
        ({
            let (after, action) = state.next(Event::Wrote(Err(cause)), now);
            let again = after.begun(Job::Beat, later).1;
            &&& action == ActionView::Done(Err(ErrorView::CannotWrite(cause)))
            &&& after.qube.path is None
            &&& after.qube.pinned is None ==> again is Search
            &&& after.qube.pinned matches Some(path) ==> again == ActionView::Open(
                path,
                None,
                Seq::empty(),
            )
        }),
{
}

/// An edit of the layout list is followed by asking for the new list and then
/// for the active layout, and the code that goes out is the one the new list
/// gives.
pub proof fn law_an_edited_list_is_read_before_its_layout_is_sent(
    state: BridgeView,
    list: Vec<(String, String, String)>,
    index: u32,
    begun_at: u128,
    list_at: u128,
    index_at: u128,
)
    requires
        state.wf(),
        state.phase is Idle,
        state.qube.path is Some,
        state.layouts is Some,
        index < list@.len(),
    ensures
        ({
            let (first, ask_list) = state.begun(Job::Edited, begun_at);
            let (second, ask_index) = first.next(Event::List(Some(list)), list_at);
            let (third, action) = second.next(Event::Index(Some(index)), index_at);
            &&& ask_list is AskList
            &&& ask_index is AskIndex
            &&& match code_for(list@[index as int].0@) {
                Some(code) => action matches ActionView::Write(report, _) && report == report_of(
                    layout_bytes(code),
                ),
                None => action == ActionView::Done(Ok(())),
            }
        }),
{
}

/// On the beat the clock goes out on every minute rollover and at no other time.
pub proof fn law_the_clock_goes_out_on_every_rollover(
    state: BridgeView,
    hour: u8,
    minute: u8,
    now: u128,
)
    requires
        state.phase == Phase::Clock(Stage::Beat),
    ensures
        state.pushed.clock != Some((hour, minute)) ==> state.next(Event::Clock(hour, minute), now).1
            == ActionView::Write(report_of(clock_bytes(hour, minute)), None),
        state.pushed.clock == Some((hour, minute)) ==> !(state.next(
            Event::Clock(hour, minute),
            now,
        ).1 is Write),
{
}

/// The layout is refreshed as a backstop against a lost packet: when the last
/// look is long enough ago, the service is asked again, and what it names is
/// sent even if the dongle already has it.
pub proof fn law_the_layout_is_refreshed(
    state: BridgeView,
    index: u32,
    code: u8,
    now: u128,
    later: u128,
)
    requires
        overdue(state.pushed.layout_at, now, LAYOUT_REFRESH),
        state.layouts matches Some(names) && code_at(names, index) == Some(code),
    ensures
        ({
            let (asked, ask) = state.beat_layout(now);
            let (after, sent) = asked.next(Event::Index(Some(index)), later);
            &&& ask is AskIndex
            &&& sent matches ActionView::Write(report, news)
            &&& report == report_of(layout_bytes(code))
            &&& news is None <==> state.pushed.layout == Some(code)
        }),
{
}

} // verus!
