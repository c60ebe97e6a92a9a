//! What the bridge does in answer to each job and to each outcome, in terms of
//! what goes over the wire, what is asked for and what is remembered.
//!
//! Times are spelled out in nanoseconds and packets byte by byte, so that each
//! law can be read against the firmware and the desktop.
use crate::bridge::{
    ActionView, Asker, BridgeError, BridgeView, ErrorView, Event, Goal, Job, News, Phase, Pushed, Stage, Turn,
};
use crate::herdr::{AgentCounts, HerdrError};
use crate::hidraw::{
    law_ranking_ranks, law_the_pick_is_the_first_of_the_lowest, Candidate,
};
use crate::layout::code_for;
use crate::qube::{QubeError, QubeView};
use vstd::prelude::*;

verus! {

/// A report that sets the header clock, byte by byte.
pub open spec fn sets_the_clock(report: Seq<u8>, hour: u8, minute: u8) -> bool {
    &&& report.len() == 33
    &&& report[0] == 0x00
    &&& report[1] == 0xAA
    &&& report[2] == hour
    &&& report[3] == minute
    &&& forall|i: int| 4 <= i < 33 ==> report[i] == 0
}

/// A report that sets the keyboard layout, byte by byte.
pub open spec fn sets_the_layout(report: Seq<u8>, code: u8) -> bool {
    &&& report.len() == 33
    &&& report[0] == 0x00
    &&& report[1] == 0xAC
    &&& report[2] == code
    &&& forall|i: int| 3 <= i < 33 ==> report[i] == 0
}

/// A report that puts agent counts on the screen, byte by byte.
pub open spec fn shows_the_counts(report: Seq<u8>, counts: AgentCounts) -> bool {
    &&& report.len() == 33
    &&& report[0] == 0x00
    &&& report[1] == 0xB0
    &&& report[2] == 0x01
    &&& report[3] == counts.working
    &&& report[4] == counts.idle
    &&& report[5] == counts.blocked
    &&& report[6] == counts.done
    &&& report[7] == counts.unknown
    &&& forall|i: int| 8 <= i < 33 ==> report[i] == 0
}

/// Ten seconds have passed since, or there never was such a time.
pub open spec fn ten_seconds_since(at: Option<u128>, now: u128) -> bool {
    match at {
        Some(at) => now >= at + 10_000_000_000,
        None => true,
    }
}

/// The device is written to, and nothing else changed but what is waited for.
pub open spec fn writes_layout(
    turn: Turn,
    before: BridgeView,
    asker: Asker,
    code: u8,
    news: Option<News>,
) -> bool {
    &&& turn.1 matches ActionView::Write(report, told)
    &&& sets_the_layout(report, code)
    &&& told == news
    &&& turn.0 == (BridgeView { phase: Phase::LayoutWrite(asker, code), ..before })
}

/// A layout is news unless the dongle has it.
pub open spec fn unless_known(before: BridgeView, code: u8) -> Option<News> {
    if before.pushed.layout == Some(code) {
        None
    } else {
        Some(News::Layout(code))
    }
}

/// The beat comes to the layout: it is asked for where there is a source and the
/// last one is ten seconds old, and passed over for the counts where not.
pub open spec fn beat_reaches_layout(turn: Turn, before: BridgeView, now: u128) -> bool {
    if before.layouts is Some && ten_seconds_since(before.pushed.layout_at, now) {
        &&& turn.1 is AskIndex
        &&& turn.0 == (BridgeView { phase: Phase::Index(Asker::Beat), ..before })
    } else {
        &&& turn.1 is FetchCounts
        &&& turn.0 == (BridgeView { phase: Phase::Counts, ..before })
    }
}

/// A job is over, and nothing changed by that.
pub open spec fn is_over(turn: Turn, before: BridgeView, result: Result<(), ErrorView>) -> bool {
    &&& turn.1 == ActionView::Done(result)
    &&& turn.0 == (BridgeView { phase: Phase::Idle, opening: None, ..before })
}

/// The device is open and up to date: what it was wanted for goes ahead.
pub open spec fn goes_ahead(turn: Turn, before: BridgeView, goal: Goal, now: u128) -> bool {
    match goal {
        Goal::Nothing => is_over(turn, before, Ok(())),
        Goal::Layout(code) => writes_layout(
            turn,
            before,
            Asker::Signal,
            code,
            unless_known(before, code),
        ),
        Goal::Beat => if before.clock {
            &&& turn.1 is ReadClock
            &&& turn.0 == (BridgeView { phase: Phase::Clock(Stage::Beat), ..before })
        } else {
            beat_reaches_layout(turn, before, now)
        },
    }
}

/// A closed device is opened: the pinned node, or whatever a search finds.
pub open spec fn opens_the_device(turn: Turn, before: BridgeView, goal: Goal) -> bool {
    match before.qube.pinned {
        Some(path) => {
            &&& turn.1 == ActionView::Open(path, None, Seq::empty())
            &&& turn.0 == (BridgeView {
                phase: Phase::Opening(goal),
                opening: Some(path),
                ..before
            })
        },
        None => {
            &&& turn.1 is Search
            &&& turn.0 == (BridgeView { phase: Phase::Searching(goal), ..before })
        },
    }
}

/// What is made of the active layout once its name is known: `name` is what the
/// list of layouts holds for it, if it reaches that far.
pub open spec fn acts_on_layout(
    turn: Turn,
    before: BridgeView,
    asker: Asker,
    name: Option<Seq<char>>,
    now: u128,
) -> bool {
    let code = match name {
        Some(name) => code_for(name),
        None => None,
    };
    match asker {
        Asker::Resync(goal) => match code {
            Some(code) => writes_layout(turn, before, asker, code, Some(News::Layout(code))),
            None => goes_ahead(turn, before, goal, now),
        },
        Asker::Beat => {
            let stamped = BridgeView {
                pushed: Pushed { layout_at: Some(now), ..before.pushed },
                ..before
            };
            match code {
                Some(code) => writes_layout(
                    turn,
                    stamped,
                    asker,
                    code,
                    unless_known(before, code),
                ),
                None => {
                    &&& turn.1 is FetchCounts
                    &&& turn.0 == (BridgeView { phase: Phase::Counts, ..stamped })
                },
            }
        },
        Asker::Signal => match code {
            Some(code) => if before.qube.path is Some {
                writes_layout(turn, before, asker, code, unless_known(before, code))
            } else {
                opens_the_device(turn, before, Goal::Layout(code))
            },
            None => is_over(turn, before, Ok(())),
        },
    }
}

/// The name that stands at an index, where the list reaches that far.
pub open spec fn name_at(names: Seq<Seq<char>>, index: u32) -> Option<Seq<char>> {
    if index < names.len() {
        Some(names[index as int])
    } else {
        None
    }
}

/// Whether these are the short names of a list that the service handed out.
pub open spec fn names_of(list: Seq<(String, String, String)>, names: Seq<Seq<char>>) -> bool {
    &&& names.len() == list.len()
    &&& forall|i: int| 0 <= i < list.len() ==> names[i] == list[i].0@
}

/// A job whose device is open begins with what it is for: a beat with the clock,
/// or, where that is not wanted, with the layout if it is due and the counts if
/// it is not. Making the device ready is then done.
pub proof fn law_a_job_on_an_open_device_goes_ahead(state: BridgeView, now: u128)
    requires
        state.wf(),
        state.phase is Idle,
        state.qube.path is Some,
    ensures
        goes_ahead(state.begun(Job::Beat, now), state, Goal::Beat, now),
        goes_ahead(state.begun(Job::Ready, now), state, Goal::Nothing, now),
{
}

/// A job whose device is closed opens it first, and remembers what for.
pub proof fn law_a_job_on_a_closed_device_opens_it(state: BridgeView, now: u128)
    requires
        state.wf(),
        state.phase is Idle,
        state.qube.path is None,
    ensures
        opens_the_device(state.begun(Job::Beat, now), state, Goal::Beat),
        opens_the_device(state.begun(Job::Ready, now), state, Goal::Nothing),
{
}

/// A switch of the layout is acted on at once, by the name that the list holds
/// for its index. Only where the list does not reach that far, it is asked for
/// first; and without a layout source there is nothing to do.
pub proof fn law_a_switch_is_acted_on(state: BridgeView, index: u32, now: u128)
    requires
        state.wf(),
        state.phase is Idle,
    ensures
        ({
            let turn = state.begun(Job::Switched(index), now);
            match state.layouts {
                None => is_over(turn, state, Ok(())),
                Some(names) => match name_at(names, index) {
                    Some(name) => acts_on_layout(turn, state, Asker::Signal, Some(name), now),
                    None => turn.1 is AskList && turn.0 == (BridgeView {
                        phase: Phase::List(Asker::Signal, index),
                        ..state
                    }),
                },
            }
        }),
{
}

/// An edit of the list makes the bridge ask for the list, take over its names,
/// and then ask which layout is active. A list that does not come leaves the
/// names as they were.
pub proof fn law_an_edit_is_followed(
    state: BridgeView,
    list: Option<Vec<(String, String, String)>>,
    now: u128,
    later: u128,
)
    requires
        state.wf(),
        state.phase is Idle,
    ensures
        ({
            let (waiting, asked) = state.begun(Job::Edited, now);
            let (after, then) = waiting.next(Event::List(list), later);
            match state.layouts {
                None => is_over((waiting, asked), state, Ok(())),
                Some(names) => {
                    &&& asked is AskList
                    &&& waiting == (BridgeView { phase: Phase::Names, ..state })
                    &&& then is AskIndex
                    &&& after.layouts matches Some(taken) && match list {
                        Some(list) => names_of(list@, taken),
                        None => taken == names,
                    }
                    &&& after == (BridgeView {
                        phase: Phase::Index(Asker::Signal),
                        layouts: after.layouts,
                        ..state
                    })
                },
            }
        }),
{
}

/// A search that finds nodes has the one with the lowest number opened, the first
/// listed of those, and hands the others on to be warned of. One that finds none,
/// or cannot be made, ends the job with that.
pub proof fn law_a_search_ends_in_the_lowest_node(
    state: BridgeView,
    goal: Goal,
    listed: Vec<Candidate>,
    cause: String,
    now: u128,
)
    requires
        state.wf(),
        state.phase == Phase::Searching(goal),
    ensures
        ({
            let turn = state.next(Event::Listed(Ok(listed)), now);
            if listed@.len() == 0 {
                is_over(turn, state, Err(ErrorView::NotFound))
            } else {
                exists|i: int|
                    {
                        &&& 0 <= i < listed@.len()
                        &&& forall|j: int| 0 <= j < i ==> listed@[j].number > #[trigger] listed@[i].number
                        &&& forall|j: int|
                            i <= j < listed@.len() ==> listed@[j].number >= listed@[i].number
                        &&& turn.1 matches ActionView::Open(path, name, ignored)
                        &&& path == listed@[i].path@
                        &&& name == Some(listed@[i].name@)
                        &&& ignored.to_multiset() == listed@.remove(i).to_multiset()
                        &&& forall|j: int, k: int|
                            0 <= j <= k < ignored.len() ==> ignored[j].number <= ignored[k].number
                        &&& turn.0 == (BridgeView {
                            phase: Phase::Opening(goal),
                            opening: Some(path),
                            ..state
                        })
                    }
            }
        }),
        is_over(
            state.next(Event::Listed(Err(cause)), now),
            state,
            Err(ErrorView::NoListing(cause)),
        ),
{
    if listed@.len() > 0 {
        let i = law_the_pick_is_the_first_of_the_lowest(listed@);
        law_ranking_ranks(listed@);
        assert(listed@[i].number == listed@[i].number);
    }
}

/// A device that was opened gets the clock first, then the layout, then what it
/// was opened for, as far as they are wanted. The counts on it are gone, and are
/// remembered no more.
pub proof fn law_an_opened_device_is_brought_up_to_date(
    state: BridgeView,
    goal: Goal,
    cause: String,
    now: u128,
)
    requires
        state.wf(),
        state.phase == Phase::Opening(goal),
    ensures
        ({
            let turn = state.next(Event::Opened(Ok(())), now);
            let open = BridgeView {
                qube: QubeView {
                    path: state.opening,
                    opens: state.qube.opens + 1,
                    ..state.qube
                },
                opening: None,
                pushed: Pushed { counts: None, counts_at: None, ..state.pushed },
                ..state
            };
            if state.clock {
                &&& turn.1 is ReadClock
                &&& turn.0 == (BridgeView { phase: Phase::Clock(Stage::Resync(goal)), ..open })
            } else if state.layouts is Some {
                &&& turn.1 is AskIndex
                &&& turn.0 == (BridgeView { phase: Phase::Index(Asker::Resync(goal)), ..open })
            } else {
                goes_ahead(turn, open, goal, now)
            }
        }),
        is_over(
            state.next(Event::Opened(Err(cause)), now),
            state,
            Err(ErrorView::CannotOpen(state.opening->0, cause)),
        ),
{
}

/// The clock goes out whatever it shows to a device that was just opened, and on
/// a beat exactly when the dongle does not have this minute.
pub proof fn law_the_clock_is_sent_when_it_has_moved(
    state: BridgeView,
    stage: Stage,
    hour: u8,
    minute: u8,
    now: u128,
)
    requires
        state.wf(),
        state.phase == Phase::Clock(stage),
    ensures
        ({
            let turn = state.next(Event::Clock(hour, minute), now);
            if stage is Beat && state.pushed.clock == Some((hour, minute)) {
                beat_reaches_layout(turn, state, now)
            } else {
                &&& turn.1 matches ActionView::Write(report, news)
                &&& sets_the_clock(report, hour, minute)
                &&& news is None
                &&& turn.0 == (BridgeView {
                    phase: Phase::ClockWrite(stage, hour, minute),
                    ..state
                })
            }
        }),
{
}

/// Once the clock has arrived it is remembered, and the layout comes next: asked
/// for whatever was last sent to a device that was just opened, and only when it
/// is due on a beat.
pub proof fn law_the_layout_comes_after_the_clock(
    state: BridgeView,
    stage: Stage,
    hour: u8,
    minute: u8,
    now: u128,
)
    requires
        state.wf(),
        state.phase == Phase::ClockWrite(stage, hour, minute),
    ensures
        ({
            let turn = state.next(Event::Wrote(Ok(())), now);
            let sent = BridgeView {
                qube: QubeView { writes: state.qube.writes + 1, ..state.qube },
                pushed: Pushed { clock: Some((hour, minute)), ..state.pushed },
                ..state
            };
            match stage {
                Stage::Beat => beat_reaches_layout(turn, sent, now),
                Stage::Resync(goal) => if state.layouts is Some {
                    &&& turn.1 is AskIndex
                    &&& turn.0 == (BridgeView { phase: Phase::Index(Asker::Resync(goal)), ..sent })
                } else {
                    goes_ahead(turn, sent, goal, now)
                },
            }
        }),
{
}

/// The active layout is acted on by the name at its index. Where the list does
/// not reach that far it is asked for, and its names are taken over before they
/// are looked at. A service that does not say leaves everything as it is.
pub proof fn law_the_active_layout_is_acted_on(
    state: BridgeView,
    asker: Asker,
    index: u32,
    list: Option<Vec<(String, String, String)>>,
    now: u128,
)
    requires
        state.wf(),
    ensures
        state.phase == Phase::Index(asker) ==> {
            let turn = state.next(Event::Index(Some(index)), now);
            match name_at(state.layouts->0, index) {
                Some(name) => acts_on_layout(turn, state, asker, Some(name), now),
                None => turn.1 is AskList && turn.0 == (BridgeView {
                    phase: Phase::List(asker, index),
                    ..state
                }),
            }
        },
        state.phase == Phase::Index(asker) ==> acts_on_layout(
            state.next(Event::Index(None), now),
            state,
            asker,
            None,
            now,
        ),
        state.phase == Phase::List(asker, index) ==> {
            let turn = state.next(Event::List(list), now);
            let names = turn.0.layouts->0;
            &&& turn.0.layouts is Some
            &&& match list {
                Some(list) => names_of(list@, names),
                None => names == state.layouts->0,
            }
            &&& acts_on_layout(
                turn,
                BridgeView { layouts: Some(names), ..state },
                asker,
                name_at(names, index),
                now,
            )
        },
{
}

/// Once the layout has arrived it is remembered, and so is when, except that a
/// beat keeps the time at which it asked. What it was sent for then goes ahead:
/// the counts on a beat, nothing after a signal, and what the device was opened
/// for.
pub proof fn law_a_layout_that_arrived_is_remembered(
    state: BridgeView,
    asker: Asker,
    code: u8,
    now: u128,
)
    requires
        state.wf(),
        state.phase == Phase::LayoutWrite(asker, code),
    ensures
        ({
            let turn = state.next(Event::Wrote(Ok(())), now);
            let sent = BridgeView {
                qube: QubeView { writes: state.qube.writes + 1, ..state.qube },
                pushed: Pushed {
                    layout: Some(code),
                    layout_at: if asker is Beat {
                        state.pushed.layout_at
                    } else {
                        Some(now)
                    },
                    ..state.pushed
                },
                ..state
            };
            match asker {
                Asker::Beat => {
                    &&& turn.1 is FetchCounts
                    &&& turn.0 == (BridgeView { phase: Phase::Counts, ..sent })
                },
                Asker::Signal => is_over(turn, sent, Ok(())),
                Asker::Resync(goal) => goes_ahead(turn, sent, goal, now),
            }
        }),
{
}

/// The counts go out when they differ from what the dongle has or are ten seconds
/// old, are told of when they differ, and are remembered once they arrived. Where
/// neither holds the beat is over without a packet. A herdr that gives no counts
/// ends the beat with its error.
pub proof fn law_the_counts_are_kept_alive(
    state: BridgeView,
    counts: AgentCounts,
    error: HerdrError,
    now: u128,
    later: u128,
)
    requires
        state.wf(),
        state.phase is Counts,
    ensures
        ({
            let (waiting, action) = state.next(Event::Counts(Ok(counts)), now);
            if state.pushed.counts != Some(counts) || ten_seconds_since(
                state.pushed.counts_at,
                now,
            ) {
                &&& action matches ActionView::Write(report, news)
                &&& shows_the_counts(report, counts)
                &&& news == (if state.pushed.counts != Some(counts) {
                    Some(News::Agents(counts))
                } else {
                    None
                })
                &&& waiting == (BridgeView { phase: Phase::CountsWrite(counts), ..state })
                &&& is_over(
                    waiting.next(Event::Wrote(Ok(())), later),
                    BridgeView {
                        qube: QubeView { writes: state.qube.writes + 1, ..state.qube },
                        pushed: Pushed {
                            counts: Some(counts),
                            counts_at: Some(later),
                            ..state.pushed
                        },
                        ..state
                    },
                    Ok(()),
                )
            } else {
                is_over((waiting, action), state, Ok(()))
            }
        }),
        is_over(
            state.next(Event::Counts(Err(error)), now),
            state,
            Err(ErrorView::Herdr(error)),
        ),
{
}

/// A packet that does not arrive ends any job with that, and the device is let go
/// of. Nothing is remembered of the packet.
pub proof fn law_a_packet_that_fails_is_not_remembered(
    state: BridgeView,
    cause: String,
    now: u128,
)
    requires
        state.wf(),
        state.awaits(Event::Wrote(Err(cause))),
    ensures
        is_over(
            state.next(Event::Wrote(Err(cause)), now),
            BridgeView {
                qube: QubeView { path: None, ..state.qube },
                ..state
            },
            Err(ErrorView::CannotWrite(cause)),
        ),
{
}

/// Whatever is asked for, any answer to it is one that the bridge is waiting for.
pub proof fn law_answers_are_awaited(
    state: BridgeView,
    job: Job,
    event: Event,
    now: u128,
    listed: Result<Vec<Candidate>, String>,
    done: Result<(), String>,
    index: Option<u32>,
    list: Option<Vec<(String, String, String)>>,
    hour: u8,
    minute: u8,
    counts: Result<AgentCounts, HerdrError>,
)
    requires
        state.wf(),
    ensures
        state.phase is Idle ==> {
            let (after, action) = state.begun(job, now);
            &&& action is Search ==> after.awaits(Event::Listed(listed))
            &&& action is Open ==> after.awaits(Event::Opened(done))
            &&& action is ReadClock ==> after.awaits(Event::Clock(hour, minute))
            &&& action is AskIndex ==> after.awaits(Event::Index(index))
            &&& action is AskList ==> after.awaits(Event::List(list))
            &&& action is Write ==> after.awaits(Event::Wrote(done))
            &&& action is FetchCounts ==> after.awaits(Event::Counts(counts))
        },
        state.awaits(event) ==> {
            let (after, action) = state.next(event, now);
            &&& action is Search ==> after.awaits(Event::Listed(listed))
            &&& action is Open ==> after.awaits(Event::Opened(done))
            &&& action is ReadClock ==> after.awaits(Event::Clock(hour, minute))
            &&& action is AskIndex ==> after.awaits(Event::Index(index))
            &&& action is AskList ==> after.awaits(Event::List(list))
            &&& action is Write ==> after.awaits(Event::Wrote(done))
            &&& action is FetchCounts ==> after.awaits(Event::Counts(counts))
        },
{
}

/// A beat refreshes the layout when it is due, with the clock or without: the
/// counts are not asked for before the active layout is.
pub proof fn law_a_beat_asks_for_a_due_layout(
    state: BridgeView,
    hour: u8,
    minute: u8,
    now: u128,
    read_at: u128,
    written_at: u128,
)
    requires
        state.wf(),
        state.phase is Idle,
        state.qube.path is Some,
        state.layouts is Some,
        ten_seconds_since(state.pushed.layout_at, now),
        now <= read_at <= written_at,
    ensures
        ({
            let (first, begins) = state.begun(Job::Beat, now);
            let (second, then) = first.next(Event::Clock(hour, minute), read_at);
            let (third, last) = second.next(Event::Wrote(Ok(())), written_at);
            &&& !state.clock ==> begins is AskIndex
            &&& state.clock ==> begins is ReadClock && (if state.pushed.clock == Some(
                (hour, minute),
            ) {
                then is AskIndex
            } else {
                then is Write && last is AskIndex
            })
        }),
{
}

/// What went wrong is told by whoever it went wrong with.
pub proof fn law_an_error_is_told_by_its_source(
    device: QubeError,
    herdr: HerdrError,
    socket: Seq<char>,
    node: Seq<char>,
)
    ensures
        BridgeError::Device(device).spelled(socket, node) == device.spelled(node),
        BridgeError::Herdr(herdr).spelled(socket, node) == herdr.spelled(socket),
{
}

} // verus!
