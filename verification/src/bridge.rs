//! What goes to the dongle, and when.
//!
//! The bridge performs nothing itself. It says what has to be done next, takes
//! in how that went, and says what comes after. Everything the dongle currently
//! believes is remembered, so that packets are only spent on real changes, and
//! so that it is known what to replay when the keyboard reboots.
use crate::herdr::{AgentCounts, HerdrError};
use crate::hidraw::{find_raw_hid_device, ranking, Candidate};
use crate::layout::{code_at, refreshed, KdeLayouts};
use crate::path::{opt_path, FilePath};
use crate::qube::{
    agents_bytes, agents_packet, clock_bytes, clock_packet, layout_bytes, layout_packet, report_of,
    Opening, Qube, QubeError, QubeView, PACKET_LEN, REPORT_LEN,
};
use crate::time::{is_overdue, overdue};
use vstd::prelude::*;

verus! {

/// Well under the firmware's expiry for the agent counts.
pub const HEARTBEAT: u128 = 10_000_000_000;

/// Nothing expires the layout on the firmware side, so a lost packet would be
/// silent and lasting: refresh it on the same beat as the agent counts.
pub const LAYOUT_REFRESH: u128 = 10_000_000_000;

/// Everything the dongle currently believes.
#[derive(Clone, Copy, Debug, PartialEq, Eq)]
pub struct Pushed {
    pub counts: Option<AgentCounts>,
    pub counts_at: Option<u128>,
    pub clock: Option<(u8, u8)>,
    pub layout: Option<u8>,
    /// When the layout was last asked for, whether or not it was sent.
    pub layout_at: Option<u128>,
}

/// Nothing pushed yet.
pub open spec fn nothing_pushed() -> Pushed {
    Pushed { counts: None, counts_at: None, clock: None, layout: None, layout_at: None }
}

impl Default for Pushed {
    fn default() -> (pushed: Self)
        ensures
            pushed == nothing_pushed(),
    {
        Pushed { counts: None, counts_at: None, clock: None, layout: None, layout_at: None }
    }
}

/// What the bridge can be asked to do.
#[derive(Clone, Copy, Debug, PartialEq, Eq, Structural)]
pub enum Job {
    /// Open the device if needed.
    Ready,
    /// The periodic beat: agent counts, clock and a layout refresh.
    Beat,
    /// The active layout moved to this index.
    Switched(u32),
    /// The list of layouts was edited.
    Edited,
}

/// What is left to do once the device is open.
#[derive(Clone, Copy, Debug, PartialEq, Eq, Structural)]
pub enum Goal {
    Nothing,
    Beat,
    Layout(u8),
}

/// On whose behalf the clock is sent.
#[derive(Clone, Copy, Debug, PartialEq, Eq, Structural)]
pub enum Stage {
    /// The device was just opened.
    Resync(Goal),
    Beat,
}

/// On whose behalf the layout is asked for and sent.
#[derive(Clone, Copy, Debug, PartialEq, Eq, Structural)]
pub enum Asker {
    /// The device was just opened.
    Resync(Goal),
    Beat,
    /// The layout service told of a change.
    Signal,
}

/// What the bridge is waiting for.
#[derive(Clone, Copy, Debug, PartialEq, Eq, Structural)]
pub enum Phase {
    /// Nothing: it can be given a job.
    Idle,
    Searching(Goal),
    Opening(Goal),
    Clock(Stage),
    ClockWrite(Stage, u8, u8),
    /// The list of layouts, after an edit.
    Names,
    /// The index of the active layout.
    Index(Asker),
    /// The list of layouts, which does not reach as far as this index.
    List(Asker, u32),
    LayoutWrite(Asker, u8),
    Counts,
    CountsWrite(AgentCounts),
}

/// Whether no layout is on its way to the dongle in a phase.
pub open spec fn no_layout_goal(phase: Phase) -> bool {
    match phase {
        Phase::Searching(goal) => !(goal is Layout),
        Phase::Opening(goal) => !(goal is Layout),
        Phase::Clock(Stage::Resync(goal)) => !(goal is Layout),
        Phase::ClockWrite(Stage::Resync(goal), _, _) => !(goal is Layout),
        _ => true,
    }
}

/// Something the log should tell of.
#[derive(Clone, Copy, Debug, PartialEq, Eq, Structural)]
pub enum News {
    Layout(u8),
    Agents(AgentCounts),
}

/// Why a job failed.
#[derive(Debug, PartialEq, Eq)]
pub enum BridgeError {
    Device(QubeError),
    Herdr(HerdrError),
}

impl BridgeError {
    /// The error in words, with the socket and the node that was to be opened as
    /// they are shown.
    pub open spec fn spelled(self, socket: Seq<char>, node: Seq<char>) -> Seq<char> {
        match self {
            BridgeError::Device(error) => error.spelled(node),
            BridgeError::Herdr(error) => error.spelled(socket),
        }
    }

    /// Puts the error into words.
    pub fn to_text(&self, socket: &str, node: &str) -> (text: String)
        ensures
            text@ == self.spelled(socket@, node@),
    {
        match self {
            BridgeError::Device(error) => error.to_text(node),
            BridgeError::Herdr(error) => error.to_text(socket),
        }
    }
}

/// What has to be done next.
#[derive(Debug, PartialEq, Eq)]
pub enum Action {
    /// List the raw HID candidates.
    Search,
    /// Open this node for writing. Where it was searched for, its name comes
    /// along, and what would have matched just as well.
    Open(FilePath, Option<String>, Vec<Candidate>),
    /// Tell the hour and the minute.
    ReadClock,
    /// Ask the layout service for the index of the active layout.
    AskIndex,
    /// Ask the layout service for its list of layouts.
    AskList,
    /// Write this report to the open node.
    Write([u8; REPORT_LEN], Option<News>),
    /// Ask herdr for the agents.
    FetchCounts,
    /// Nothing: the job is over.
    Done(Result<(), BridgeError>),
}

/// How what had to be done went.
#[derive(Debug, PartialEq, Eq)]
pub enum Event {
    Listed(Result<Vec<Candidate>, String>),
    Opened(Result<(), String>),
    Clock(u8, u8),
    Index(Option<u32>),
    List(Option<Vec<(String, String, String)>>),
    Wrote(Result<(), String>),
    Counts(Result<AgentCounts, HerdrError>),
}

/// Why a job failed, without how it is stored.
pub enum ErrorView {
    NoListing(String),
    NotFound,
    CannotOpen(Seq<u8>, String),
    NotOpen,
    CannotWrite(String),
    Herdr(HerdrError),
}

impl View for BridgeError {
    type V = ErrorView;

    open spec fn view(&self) -> ErrorView {
        match *self {
            BridgeError::Device(QubeError::NoListing(cause)) => ErrorView::NoListing(cause),
            BridgeError::Device(QubeError::NotFound) => ErrorView::NotFound,
            BridgeError::Device(QubeError::CannotOpen(path, cause)) => ErrorView::CannotOpen(
                path@,
                cause,
            ),
            BridgeError::Device(QubeError::NotOpen) => ErrorView::NotOpen,
            BridgeError::Device(QubeError::CannotWrite(cause)) => ErrorView::CannotWrite(cause),
            BridgeError::Herdr(error) => ErrorView::Herdr(error),
        }
    }
}

/// What has to be done next, without how it is stored.
pub enum ActionView {
    Search,
    Open(Seq<u8>, Option<Seq<char>>, Seq<Candidate>),
    ReadClock,
    AskIndex,
    AskList,
    Write(Seq<u8>, Option<News>),
    FetchCounts,
    Done(Result<(), ErrorView>),
}

impl View for Action {
    type V = ActionView;

    open spec fn view(&self) -> ActionView {
        match *self {
            Action::Search => ActionView::Search,
            Action::Open(path, name, ignored) => ActionView::Open(
                path@,
                crate::text::opt_view(name),
                ignored@,
            ),
            Action::ReadClock => ActionView::ReadClock,
            Action::AskIndex => ActionView::AskIndex,
            Action::AskList => ActionView::AskList,
            Action::Write(report, news) => ActionView::Write(report@, news),
            Action::FetchCounts => ActionView::FetchCounts,
            Action::Done(Ok(_)) => ActionView::Done(Ok(())),
            Action::Done(Err(error)) => ActionView::Done(Err(error@)),
        }
    }
}

/// The bridge between herdr, the layout service and the dongle.
#[derive(Debug, PartialEq, Eq)]
pub struct Bridge {
    pub qube: Qube,
    pub layouts: Option<KdeLayouts>,
    /// Whether to keep looking for a layout source we do not have yet.
    pub wants_layout: bool,
    pub clock: bool,
    pub pushed: Pushed,
    pub phase: Phase,
    /// The node that is being opened.
    pub opening: Option<FilePath>,
}

/// The bridge, without how it is stored.
pub struct BridgeView {
    pub qube: QubeView,
    pub layouts: Option<Seq<Seq<char>>>,
    pub wants_layout: bool,
    pub clock: bool,
    pub pushed: Pushed,
    pub phase: Phase,
    pub opening: Option<Seq<u8>>,
}

impl View for Bridge {
    type V = BridgeView;

    open spec fn view(&self) -> BridgeView {
        BridgeView {
            qube: self.qube@,
            layouts: match self.layouts {
                Some(layouts) => Some(layouts@),
                None => None,
            },
            wants_layout: self.wants_layout,
            clock: self.clock,
            pushed: self.pushed,
            phase: self.phase,
            opening: opt_path(self.opening),
        }
    }
}

/// A state and what has to be done in it.
pub type Turn = (BridgeView, ActionView);

impl BridgeView {
    /// Whether the state makes sense: the device is open while something is
    /// written to it, a node is known while it is opened, and the layout service
    /// is only asked where there is one.
    pub open spec fn wf(self) -> bool {
        match self.phase {
            Phase::Idle => true,
            Phase::Searching(_) => self.qube.path is None,
            Phase::Opening(_) => self.qube.path is None && self.opening is Some,
            Phase::Clock(_) => self.qube.path is Some && self.clock,
            Phase::ClockWrite(_, _, _) => self.qube.path is Some && self.clock,
            Phase::Names => self.layouts is Some,
            Phase::Index(Asker::Signal) => self.layouts is Some,
            Phase::List(Asker::Signal, _) => self.layouts is Some,
            Phase::Index(_) => self.layouts is Some && self.qube.path is Some,
            Phase::List(_, _) => self.layouts is Some && self.qube.path is Some,
            Phase::LayoutWrite(_, _) => self.qube.path is Some,
            Phase::Counts => self.qube.path is Some,
            Phase::CountsWrite(_) => self.qube.path is Some,
        }
    }

    /// Whether this is what the bridge is waiting for.
    pub open spec fn awaits(self, event: Event) -> bool {
        match event {
            Event::Listed(_) => self.phase is Searching,
            Event::Opened(_) => self.phase is Opening,
            Event::Clock(_, _) => self.phase is Clock,
            Event::Index(_) => self.phase is Index,
            Event::List(_) => self.phase is List || self.phase is Names,
            Event::Wrote(_) => self.phase is ClockWrite || self.phase is LayoutWrite || self.phase
                is CountsWrite,
            Event::Counts(_) => self.phase is Counts,
        }
    }

    /// Waiting in `phase` for `action`.
    pub open spec fn waiting(self, phase: Phase, action: ActionView) -> Turn {
        (BridgeView { phase, ..self }, action)
    }

    /// The job is over.
    pub open spec fn finished(self, result: Result<(), ErrorView>) -> Turn {
        (BridgeView { phase: Phase::Idle, opening: None, ..self }, ActionView::Done(result))
    }

    /// A packet goes out.
    pub open spec fn writing(self, phase: Phase, payload: Seq<u8>, news: Option<News>) -> Turn {
        self.waiting(phase, ActionView::Write(report_of(payload), news))
    }

    /// What to log about a layout: nothing where the dongle already has it.
    pub open spec fn layout_news(self, code: u8) -> Option<News> {
        if self.pushed.layout == Some(code) {
            None
        } else {
            Some(News::Layout(code))
        }
    }

    /// The device has to be open before anything else.
    pub open spec fn make_ready(self, goal: Goal, now: u128) -> Turn {
        if self.qube.path is Some {
            self.ready(goal, now)
        } else {
            match self.qube.pinned {
                Some(path) => self.opening_node(goal, path, None, Seq::empty()),
                None => self.waiting(Phase::Searching(goal), ActionView::Search),
            }
        }
    }

    /// A node has to be opened.
    pub open spec fn opening_node(
        self,
        goal: Goal,
        path: Seq<u8>,
        name: Option<Seq<char>>,
        ignored: Seq<Candidate>,
    ) -> Turn {
        (
            BridgeView { phase: Phase::Opening(goal), opening: Some(path), ..self },
            ActionView::Open(path, name, ignored),
        )
    }

    /// The device was just opened: a keyboard that rebooted starts from an
    /// English layout, an empty clock and no counts. The counts are forgotten so
    /// that the next beat resends them, the clock and the layout are sent
    /// whatever their last known values.
    pub open spec fn resync(self, path: Seq<u8>, goal: Goal, now: u128) -> Turn {
        let fresh = BridgeView {
            qube: self.qube.opened(path),
            opening: None,
            pushed: Pushed { counts: None, counts_at: None, ..self.pushed },
            ..self
        };
        if fresh.clock {
            fresh.waiting(Phase::Clock(Stage::Resync(goal)), ActionView::ReadClock)
        } else {
            fresh.resync_layout(goal, now)
        }
    }

    /// The layout part of a resync.
    pub open spec fn resync_layout(self, goal: Goal, now: u128) -> Turn {
        if self.layouts is Some {
            self.waiting(Phase::Index(Asker::Resync(goal)), ActionView::AskIndex)
        } else {
            self.ready(goal, now)
        }
    }

    /// The device is open, and what it was opened for can go ahead.
    pub open spec fn ready(self, goal: Goal, now: u128) -> Turn {
        match goal {
            Goal::Nothing => self.finished(Ok(())),
            Goal::Layout(code) => self.writing(
                Phase::LayoutWrite(Asker::Signal, code),
                layout_bytes(code),
                self.layout_news(code),
            ),
            Goal::Beat => if self.clock {
                self.waiting(Phase::Clock(Stage::Beat), ActionView::ReadClock)
            } else {
                self.beat_layout(now)
            },
        }
    }

    /// The layout part of a beat: asked for when the last time is long enough
    /// ago.
    pub open spec fn beat_layout(self, now: u128) -> Turn {
        if overdue(self.pushed.layout_at, now, LAYOUT_REFRESH) && self.layouts is Some {
            self.waiting(Phase::Index(Asker::Beat), ActionView::AskIndex)
        } else {
            self.beat_counts()
        }
    }

    /// The agent part of a beat.
    pub open spec fn beat_counts(self) -> Turn {
        self.waiting(Phase::Counts, ActionView::FetchCounts)
    }

    /// The active layout is known by its index. Where the list of layouts does
    /// not reach that far, it is asked for first.
    pub open spec fn lookup(self, asker: Asker, index: u32, now: u128) -> Turn {
        if index >= self.layouts->0.len() {
            self.waiting(Phase::List(asker, index), ActionView::AskList)
        } else {
            self.resolved(asker, code_at(self.layouts->0, index), now)
        }
    }

    /// The active layout is known, or known to be one the firmware has no code
    /// for, which leaves the last known one in place.
    pub open spec fn resolved(self, asker: Asker, code: Option<u8>, now: u128) -> Turn {
        match asker {
            Asker::Resync(goal) => match code {
                Some(code) => self.writing(
                    Phase::LayoutWrite(asker, code),
                    layout_bytes(code),
                    Some(News::Layout(code)),
                ),
                None => self.ready(goal, now),
            },
            Asker::Beat => {
                // The attempt is stamped, not the success: a layout without a
                // code yields nothing every time, and would otherwise turn every
                // beat into a round trip on the bus.
                let stamped = BridgeView {
                    pushed: Pushed { layout_at: Some(now), ..self.pushed },
                    ..self
                };
                match code {
                    Some(code) => stamped.writing(
                        Phase::LayoutWrite(asker, code),
                        layout_bytes(code),
                        self.layout_news(code),
                    ),
                    None => stamped.beat_counts(),
                }
            },
            Asker::Signal => match code {
                Some(code) => self.make_ready(Goal::Layout(code), now),
                None => self.finished(Ok(())),
            },
        }
    }

    /// The agents were counted. herdr tells of scrolling and resizes too, so
    /// most of the time there is no news: a packet is only spent on a real
    /// change, or on keeping the counts alive.
    pub open spec fn counted(self, counts: AgentCounts, now: u128) -> Turn {
        let changed = self.pushed.counts != Some(counts);
        if changed || overdue(self.pushed.counts_at, now, HEARTBEAT) {
            self.writing(
                Phase::CountsWrite(counts),
                agents_bytes(counts),
                if changed {
                    Some(News::Agents(counts))
                } else {
                    None
                },
            )
        } else {
            self.finished(Ok(()))
        }
    }

    /// A packet has reached the dongle.
    pub open spec fn written(self, now: u128) -> Turn {
        let sent = BridgeView { qube: self.qube.wrote(), ..self };
        match self.phase {
            Phase::ClockWrite(stage, hour, minute) => {
                let sent = BridgeView {
                    pushed: Pushed { clock: Some((hour, minute)), ..self.pushed },
                    ..sent
                };
                match stage {
                    Stage::Resync(goal) => sent.resync_layout(goal, now),
                    Stage::Beat => sent.beat_layout(now),
                }
            },
            Phase::LayoutWrite(Asker::Resync(goal), code) => BridgeView {
                pushed: Pushed { layout: Some(code), layout_at: Some(now), ..self.pushed },
                ..sent
            }.ready(goal, now),
            Phase::LayoutWrite(Asker::Beat, code) => BridgeView {
                pushed: Pushed { layout: Some(code), ..self.pushed },
                ..sent
            }.beat_counts(),
            Phase::LayoutWrite(Asker::Signal, code) => BridgeView {
                pushed: Pushed { layout: Some(code), layout_at: Some(now), ..self.pushed },
                ..sent
            }.finished(Ok(())),
            Phase::CountsWrite(counts) => BridgeView {
                pushed: Pushed { counts: Some(counts), counts_at: Some(now), ..self.pushed },
                ..sent
            }.finished(Ok(())),
            _ => sent.finished(Ok(())),
        }
    }

    /// What comes after an event.
    pub open spec fn next(self, event: Event, now: u128) -> Turn {
        match (self.phase, event) {
            (Phase::Searching(goal), Event::Listed(Ok(listed))) => if listed@.len() > 0 {
                let order = ranking(listed@);
                self.opening_node(goal, order[0].path@, Some(order[0].name@), order.skip(1))
            } else {
                self.finished(Err(ErrorView::NotFound))
            },
            (Phase::Searching(_), Event::Listed(Err(cause))) => self.finished(
                Err(ErrorView::NoListing(cause)),
            ),
            (Phase::Opening(goal), Event::Opened(Ok(_))) => self.resync(
                self.opening->0,
                goal,
                now,
            ),
            (Phase::Opening(_), Event::Opened(Err(cause))) => self.finished(
                Err(ErrorView::CannotOpen(self.opening->0, cause)),
            ),
            (Phase::Clock(stage), Event::Clock(hour, minute)) => if stage is Beat
                && self.pushed.clock == Some((hour, minute)) {
                self.beat_layout(now)
            } else {
                self.writing(
                    Phase::ClockWrite(stage, hour, minute),
                    clock_bytes(hour, minute),
                    None,
                )
            },
            (Phase::Names, Event::List(list)) => BridgeView {
                layouts: Some(refreshed(self.layouts->0, list)),
                ..self
            }.waiting(Phase::Index(Asker::Signal), ActionView::AskIndex),
            (Phase::Index(asker), Event::Index(Some(index))) => self.lookup(asker, index, now),
            (Phase::Index(asker), Event::Index(None)) => self.resolved(asker, None, now),
            (Phase::List(asker, index), Event::List(list)) => {
                let names = refreshed(self.layouts->0, list);
                BridgeView { layouts: Some(names), ..self }.resolved(
                    asker,
                    code_at(names, index),
                    now,
                )
            },
            (_, Event::Wrote(Ok(_))) => self.written(now),
            (_, Event::Wrote(Err(cause))) => BridgeView {
                qube: self.qube.closed(),
                ..self
            }.finished(Err(ErrorView::CannotWrite(cause))),
            (Phase::Counts, Event::Counts(Ok(counts))) => self.counted(counts, now),
            (Phase::Counts, Event::Counts(Err(error))) => self.finished(
                Err(ErrorView::Herdr(error)),
            ),
            _ => self.finished(Ok(())),
        }
    }

    /// What a job begins with.
    pub open spec fn begun(self, job: Job, now: u128) -> Turn {
        match job {
            Job::Ready => self.make_ready(Goal::Nothing, now),
            Job::Beat => self.make_ready(Goal::Beat, now),
            Job::Switched(index) => if self.layouts is Some {
                self.lookup(Asker::Signal, index, now)
            } else {
                self.finished(Ok(()))
            },
            Job::Edited => if self.layouts is Some {
                self.waiting(Phase::Names, ActionView::AskList)
            } else {
                self.finished(Ok(()))
            },
        }
    }
}

impl Bridge {
    /// A bridge that has not pushed anything yet.
    pub fn new(
        qube: Qube,
        layouts: Option<KdeLayouts>,
        wants_layout: bool,
        clock: bool,
    ) -> (bridge: Bridge)
        ensures
            bridge@ == (BridgeView {
                qube: qube@,
                layouts: match layouts {
                    Some(layouts) => Some(layouts@),
                    None => None,
                },
                wants_layout,
                clock,
                pushed: nothing_pushed(),
                phase: Phase::Idle,
                opening: None,
            }),
            bridge@.wf(),
    {
        Bridge {
            qube,
            layouts,
            wants_layout,
            clock,
            pushed: Pushed::default(),
            phase: Phase::Idle,
            opening: None,
        }
    }

    /// Starts a job. What comes back has to be done first, and its outcome
    /// handed to `step`.
    pub fn begin(&mut self, job: Job, now: u128) -> (action: Action)
        requires
            old(self)@.wf(),
            old(self)@.phase is Idle,
        ensures
            (final(self)@, action@) == old(self)@.begun(job, now),
            final(self)@.wf(),
    {
        match job {
            Job::Ready => self.ensure_ready(Goal::Nothing, now),
            Job::Beat => self.ensure_ready(Goal::Beat, now),
            Job::Switched(index) => if self.layouts.is_some() {
                self.find_code(Asker::Signal, index, now)
            } else {
                self.finish(Ok(()))
            },
            Job::Edited => if self.layouts.is_some() {
                self.phase = Phase::Names;
                Action::AskList
            } else {
                self.finish(Ok(()))
            },
        }
    }

    /// Whether this is what the bridge is waiting for.
    pub fn is_awaiting(&self, event: &Event) -> (awaited: bool)
        ensures
            awaited == self@.awaits(*event),
    {
        match (&self.phase, event) {
            (Phase::Searching(_), Event::Listed(_)) => true,
            (Phase::Opening(_), Event::Opened(_)) => true,
            (Phase::Clock(_), Event::Clock(_, _)) => true,
            (Phase::Index(_), Event::Index(_)) => true,
            (Phase::List(_, _), Event::List(_)) => true,
            (Phase::Names, Event::List(_)) => true,
            (Phase::ClockWrite(_, _, _), Event::Wrote(_)) => true,
            (Phase::LayoutWrite(_, _), Event::Wrote(_)) => true,
            (Phase::CountsWrite(_), Event::Wrote(_)) => true,
            (Phase::Counts, Event::Counts(_)) => true,
            _ => false,
        }
    }

    /// Takes in how the last action went, and says what comes next.
    pub fn step(&mut self, event: Event, now: u128) -> (action: Action)
        requires
            old(self)@.wf(),
            old(self)@.awaits(event),
            old(self).qube.writes < u64::MAX,
            old(self).qube.opens < u64::MAX,
        ensures
            (final(self)@, action@) == old(self)@.next(event, now),
            final(self)@.wf(),
    {
        match event {
            Event::Listed(listed) => self.listed(listed),
            Event::Opened(outcome) => self.opened(outcome, now),
            Event::Clock(hour, minute) => self.clock_read(hour, minute, now),
            Event::Index(index) => self.index_known(index, now),
            Event::List(list) => self.list_known(list, now),
            Event::Wrote(outcome) => self.wrote(outcome, now),
            Event::Counts(counts) => self.counted(counts, now),
        }
    }

    /// Drops everything that is known about the device after a failure: it is
    /// opened again, and everything is sent again.
    pub fn reset(&mut self)
        requires
            old(self)@.phase is Idle,
        ensures
            final(self)@ == (BridgeView {
                qube: old(self)@.qube.closed(),
                pushed: nothing_pushed(),
                ..old(self)@
            }),
            final(self)@.wf(),
    {
        self.qube.close();
        self.pushed = Pushed::default();
    }

    /// Lets go of the layout source, or takes up a new one.
    pub fn set_layouts(&mut self, layouts: Option<KdeLayouts>)
        requires
            old(self)@.phase is Idle,
        ensures
            final(self)@ == (BridgeView {
                layouts: match layouts {
                    Some(layouts) => Some(layouts@),
                    None => None,
                },
                ..old(self)@
            }),
            final(self)@.wf(),
    {
        self.layouts = layouts;
    }

    fn finish(&mut self, result: Result<(), BridgeError>) -> (action: Action)
        ensures
            (final(self)@, action@) == old(self)@.finished(
                match result {
                    Ok(_) => Ok(()),
                    Err(error) => Err(error@),
                },
            ),
    {
        self.phase = Phase::Idle;
        self.opening = None;
        Action::Done(result)
    }

    fn write(&mut self, phase: Phase, payload: [u8; PACKET_LEN], news: Option<News>) -> (action:
        Action)
        requires
            old(self)@.qube.path is Some,
        ensures
            (final(self)@, action@) == old(self)@.writing(phase, payload@, news),
    {
        match self.qube.write(&payload) {
            Ok(report) => {
                self.phase = phase;
                Action::Write(report, news)
            },
            Err(error) => {
                assert(false);
                self.finish(Err(BridgeError::Device(error)))
            },
        }
    }

    /// Opens the device if needed, replaying state when it was just opened.
    fn ensure_ready(&mut self, goal: Goal, now: u128) -> (action: Action)
        ensures
            (final(self)@, action@) == old(self)@.make_ready(goal, now),
            final(self)@.wf(),
    {
        match self.qube.ensure_open() {
            Opening::Ready => self.ready(goal, now),
            Opening::Open(path) => self.open_node(goal, path, None, Vec::new()),
            Opening::Search => {
                self.phase = Phase::Searching(goal);
                Action::Search
            },
        }
    }

    fn open_node(
        &mut self,
        goal: Goal,
        path: FilePath,
        name: Option<String>,
        ignored: Vec<Candidate>,
    ) -> (action: Action)
        requires
            old(self)@.qube.path is None,
        ensures
            (final(self)@, action@) == old(self)@.opening_node(
                goal,
                path@,
                crate::text::opt_view(name),
                ignored@,
            ),
            final(self)@.wf(),
    {
        self.phase = Phase::Opening(goal);
        self.opening = Some(path.copy());
        Action::Open(path, name, ignored)
    }

    fn listed(&mut self, listed: Result<Vec<Candidate>, String>) -> (action: Action)
        requires
            old(self)@.wf(),
            old(self)@.phase is Searching,
        ensures
            forall|now: u128|
                (final(self)@, action@) == #[trigger] old(self)@.next(Event::Listed(listed), now),
            final(self)@.wf(),
    {
        let goal = match self.phase {
            Phase::Searching(goal) => goal,
            _ => Goal::Nothing,
        };
        match listed {
            Ok(listed) => {
                let search = find_raw_hid_device(listed);
                match search.chosen {
                    Some(chosen) => {
                        assert(ranking(listed@).skip(1) =~= search.ignored@);
                        self.open_node(goal, chosen.path, Some(chosen.name), search.ignored)
                    },
                    None => self.finish(Err(BridgeError::Device(QubeError::NotFound))),
                }
            },
            Err(cause) => self.finish(Err(BridgeError::Device(QubeError::NoListing(cause)))),
        }
    }

    fn opened(&mut self, outcome: Result<(), String>, now: u128) -> (action: Action)
        requires
            old(self)@.wf(),
            old(self)@.phase is Opening,
            old(self).qube.opens < u64::MAX,
        ensures
            (final(self)@, action@) == old(self)@.next(Event::Opened(outcome), now),
            final(self)@.wf(),
    {
        let goal = match self.phase {
            Phase::Opening(goal) => goal,
            _ => Goal::Nothing,
        };
        let path = match self.opening.take() {
            Some(path) => path,
            None => FilePath { bytes: Vec::new() },
        };
        match outcome {
            Ok(_) => {
                self.qube.opened(path);
                self.resync_after_open(goal, now)
            },
            Err(cause) => self.finish(
                Err(BridgeError::Device(QubeError::CannotOpen(path, cause))),
            ),
        }
    }

    /// Sends the clock and the layout, whatever their last known values.
    fn resync_after_open(&mut self, goal: Goal, now: u128) -> (action: Action)
        requires
            old(self)@.qube.path is Some,
        ensures
            (final(self)@, action@) == ({
                let fresh = BridgeView {
                    pushed: Pushed { counts: None, counts_at: None, ..old(self)@.pushed },
                    ..old(self)@
                };
                if fresh.clock {
                    fresh.waiting(Phase::Clock(Stage::Resync(goal)), ActionView::ReadClock)
                } else {
                    fresh.resync_layout(goal, now)
                }
            }),
            final(self)@.wf(),
    {
        self.pushed.counts = None;
        self.pushed.counts_at = None;
        if self.clock {
            self.phase = Phase::Clock(Stage::Resync(goal));
            Action::ReadClock
        } else {
            self.resync_layout(goal, now)
        }
    }

    fn resync_layout(&mut self, goal: Goal, now: u128) -> (action: Action)
        requires
            old(self)@.qube.path is Some,
        ensures
            (final(self)@, action@) == old(self)@.resync_layout(goal, now),
            final(self)@.wf(),
    {
        if self.layouts.is_some() {
            self.phase = Phase::Index(Asker::Resync(goal));
            Action::AskIndex
        } else {
            self.ready(goal, now)
        }
    }

    fn ready(&mut self, goal: Goal, now: u128) -> (action: Action)
        requires
            old(self)@.qube.path is Some,
        ensures
            (final(self)@, action@) == old(self)@.ready(goal, now),
            final(self)@.wf(),
    {
        match goal {
            Goal::Nothing => self.finish(Ok(())),
            Goal::Layout(code) => self.push_layout(code),
            Goal::Beat => if self.clock {
                self.phase = Phase::Clock(Stage::Beat);
                Action::ReadClock
            } else {
                self.beat_layout(now)
            },
        }
    }

    fn push_layout(&mut self, code: u8) -> (action: Action)
        requires
            old(self)@.qube.path is Some,
        ensures
            forall|now: u128|
                (final(self)@, action@) == #[trigger] old(self)@.ready(Goal::Layout(code), now),
            final(self)@.wf(),
    {
        let news = self.layout_news(code);
        self.write(Phase::LayoutWrite(Asker::Signal, code), layout_packet(code), news)
    }

    fn layout_news(&self, code: u8) -> (news: Option<News>)
        ensures
            news == self@.layout_news(code),
    {
        match self.pushed.layout {
            Some(known) => if known == code {
                None
            } else {
                Some(News::Layout(code))
            },
            None => Some(News::Layout(code)),
        }
    }

    fn clock_read(&mut self, hour: u8, minute: u8, now: u128) -> (action: Action)
        requires
            old(self)@.wf(),
            old(self)@.phase is Clock,
        ensures
            (final(self)@, action@) == old(self)@.next(Event::Clock(hour, minute), now),
            final(self)@.wf(),
    {
        let stage = match self.phase {
            Phase::Clock(stage) => stage,
            _ => Stage::Beat,
        };
        let known = match self.pushed.clock {
            Some((known_hour, known_minute)) => known_hour == hour && known_minute == minute,
            None => false,
        };
        if let Stage::Beat = stage {
            if known {
                return self.beat_layout(now);
            }
        }
        self.write(Phase::ClockWrite(stage, hour, minute), clock_packet(hour, minute), None)
    }

    fn beat_layout(&mut self, now: u128) -> (action: Action)
        requires
            old(self)@.qube.path is Some,
        ensures
            (final(self)@, action@) == old(self)@.beat_layout(now),
            final(self)@.wf(),
    {
        if is_overdue(self.pushed.layout_at, now, LAYOUT_REFRESH) && self.layouts.is_some() {
            self.phase = Phase::Index(Asker::Beat);
            Action::AskIndex
        } else {
            self.beat_counts()
        }
    }

    fn beat_counts(&mut self) -> (action: Action)
        requires
            old(self)@.qube.path is Some,
        ensures
            (final(self)@, action@) == old(self)@.beat_counts(),
            final(self)@.wf(),
    {
        self.phase = Phase::Counts;
        Action::FetchCounts
    }

    fn index_known(&mut self, index: Option<u32>, now: u128) -> (action: Action)
        requires
            old(self)@.wf(),
            old(self)@.phase is Index,
        ensures
            (final(self)@, action@) == old(self)@.next(Event::Index(index), now),
            final(self)@.wf(),
    {
        let asker = match self.phase {
            Phase::Index(asker) => asker,
            _ => Asker::Signal,
        };
        match index {
            Some(index) => self.find_code(asker, index, now),
            None => self.resolved(asker, None, now),
        }
    }

    fn find_code(&mut self, asker: Asker, index: u32, now: u128) -> (action: Action)
        requires
            old(self)@.layouts is Some,
            asker is Signal || old(self)@.qube.path is Some,
        ensures
            (final(self)@, action@) == old(self)@.lookup(asker, index, now),
            final(self)@.wf(),
    {
        let code = match &self.layouts {
            Some(layouts) => if layouts.needs_refresh(index) {
                self.phase = Phase::List(asker, index);
                return Action::AskList;
            } else {
                layouts.code_for_index(index)
            },
            None => None,
        };
        self.resolved(asker, code, now)
    }

    fn list_known(&mut self, list: Option<Vec<(String, String, String)>>, now: u128) -> (action:
        Action)
        requires
            old(self)@.wf(),
            old(self)@.phase is List || old(self)@.phase is Names,
        ensures
            (final(self)@, action@) == old(self)@.next(Event::List(list), now),
            final(self)@.wf(),
    {
        let mut layouts = match self.layouts.take() {
            Some(layouts) => layouts,
            None => KdeLayouts { names: Vec::new() },
        };
        layouts.refresh_names(list);
        match self.phase {
            Phase::List(asker, index) => {
                let code = layouts.code_for_index(index);
                self.layouts = Some(layouts);
                self.resolved(asker, code, now)
            },
            _ => {
                self.layouts = Some(layouts);
                self.phase = Phase::Index(Asker::Signal);
                Action::AskIndex
            },
        }
    }

    fn resolved(&mut self, asker: Asker, code: Option<u8>, now: u128) -> (action: Action)
        requires
            asker is Signal || old(self)@.qube.path is Some,
        ensures
            (final(self)@, action@) == old(self)@.resolved(asker, code, now),
            final(self)@.wf(),
    {
        match asker {
            Asker::Resync(goal) => match code {
                Some(code) => self.write(
                    Phase::LayoutWrite(asker, code),
                    layout_packet(code),
                    Some(News::Layout(code)),
                ),
                None => self.ready(goal, now),
            },
            Asker::Beat => {
                self.pushed.layout_at = Some(now);
                match code {
                    Some(code) => {
                        let news = self.layout_news(code);
                        self.write(Phase::LayoutWrite(asker, code), layout_packet(code), news)
                    },
                    None => self.beat_counts(),
                }
            },
            Asker::Signal => match code {
                Some(code) => self.ensure_ready(Goal::Layout(code), now),
                None => self.finish(Ok(())),
            },
        }
    }

    fn counted(&mut self, counts: Result<AgentCounts, HerdrError>, now: u128) -> (action: Action)
        requires
            old(self)@.wf(),
            old(self)@.phase is Counts,
        ensures
            (final(self)@, action@) == old(self)@.next(Event::Counts(counts), now),
            final(self)@.wf(),
    {
        let counts = match counts {
            Ok(counts) => counts,
            Err(error) => {
                return self.finish(Err(BridgeError::Herdr(error)));
            },
        };
        let changed = match self.pushed.counts {
            Some(known) => known != counts,
            None => true,
        };
        if changed || is_overdue(self.pushed.counts_at, now, HEARTBEAT) {
            let news = if changed {
                Some(News::Agents(counts))
            } else {
                None
            };
            self.write(Phase::CountsWrite(counts), agents_packet(&counts), news)
        } else {
            self.finish(Ok(()))
        }
    }

    fn wrote(&mut self, outcome: Result<(), String>, now: u128) -> (action: Action)
        requires
            old(self)@.wf(),
            old(self)@.awaits(Event::Wrote(outcome)),
            old(self).qube.writes < u64::MAX,
        ensures
            (final(self)@, action@) == old(self)@.next(Event::Wrote(outcome), now),
            final(self)@.wf(),
    {
        if let Err(error) = self.qube.wrote(outcome) {
            return self.finish(Err(BridgeError::Device(error)));
        }
        match self.phase {
            Phase::ClockWrite(stage, hour, minute) => {
                self.pushed.clock = Some((hour, minute));
                match stage {
                    Stage::Resync(goal) => self.resync_layout(goal, now),
                    Stage::Beat => self.beat_layout(now),
                }
            },
            Phase::LayoutWrite(asker, code) => {
                self.pushed.layout = Some(code);
                match asker {
                    Asker::Resync(goal) => {
                        self.pushed.layout_at = Some(now);
                        self.ready(goal, now)
                    },
                    Asker::Beat => self.beat_counts(),
                    Asker::Signal => {
                        self.pushed.layout_at = Some(now);
                        self.finish(Ok(()))
                    },
                }
            },
            Phase::CountsWrite(counts) => {
                self.pushed.counts = Some(counts);
                self.pushed.counts_at = Some(now);
                self.finish(Ok(()))
            },
            _ => self.finish(Ok(())),
        }
    }
}

/// Whether a turn is one that an outcome can be handed to: the state is
/// sound, and waits for what the action will bring.
pub open spec fn consistent(turn: Turn) -> bool {
    let (state, action) = turn;
    &&& state.wf()
    &&& match action {
        ActionView::Search => state.phase is Searching,
        ActionView::Open(path, _, _) => state.phase is Opening && state.opening == Some(path),
        ActionView::ReadClock => state.phase is Clock,
        ActionView::AskIndex => state.phase is Index,
        ActionView::AskList => state.phase is List || state.phase is Names,
        ActionView::Write(_, _) => state.phase is ClockWrite || state.phase is LayoutWrite
            || state.phase is CountsWrite,
        ActionView::FetchCounts => state.phase is Counts,
        ActionView::Done(_) => state.phase is Idle,
    }
}

} // verus!
