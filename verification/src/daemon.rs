//! The whole life of the daemon: starting up, one session after the other, and
//! the rest in between.
//!
//! Like the bridge, the daemon performs nothing itself. Each turn it says what
//! has to be done and then takes in how that went.
use crate::bridge::{
    consistent, nothing_pushed, Action, ActionView, Bridge, BridgeError, BridgeView, ErrorView,
    Event, Job, Turn, HEARTBEAT, LAYOUT_REFRESH,
};
use crate::bridge_laws::law_every_turn_is_consistent;
use crate::herdr::{Events, HerdrError};
use crate::layout::{Change, KdeLayouts, LayoutError};
use crate::session::{due_by, is_probing, probing, Arrived, Session, Step, Wake, LAYOUT_PROBE};
use crate::supervisor::{Rest, Supervisor, RAPID_RESTART_LIMIT, RECONNECT_MIN};
use crate::time::LATEST;
use vstd::prelude::*;

verus! {

/// What the daemon is in the middle of.
#[derive(Clone, Copy, Debug, PartialEq, Eq, Structural)]
pub enum Stage {
    /// Telling whoever started the daemon that it is up.
    Announcing,
    /// Looking for the layout service before anything else.
    Starting,
    /// Doing this for a single update.
    Updating(Job),
    Subscribing,
    /// Taking up the signals of the layout service.
    Following,
    /// Waiting for whatever comes first.
    Waiting,
    /// Having the bridge do this.
    Working(Job),
    /// Looking for the layout service again.
    Probing,
    /// Keeping still between two sessions.
    Resting,
    /// Everything is done.
    Over,
}

/// What has to be done next.
#[derive(Debug, PartialEq, Eq)]
pub enum Task {
    /// Say that the daemon is up.
    Announce,
    /// Connect to the layout service.
    Connect,
    /// Do what the bridge asks for.
    Perform(Action),
    /// Subscribe to herdr's events.
    Subscribe,
    /// Follow the signals of the layout service.
    Follow,
    /// Wait for a layout change or an event, as far as there is none that was
    /// not looked at yet, but no longer than until this time.
    Wait(u128),
    /// Sleep off a failure or a flapping layout source.
    Sleep(Rest),
    /// Leave.
    Exit(Result<(), BridgeError>),
}

/// How what had to be done went.
#[derive(Debug, PartialEq, Eq)]
pub enum Outcome {
    Announced,
    Connected(Result<KdeLayouts, LayoutError>),
    Performed(Event),
    Subscribed(Result<Events, HerdrError>),
    Followed(bool),
    Arrived(Arrived),
    Rested,
}

/// A pause, without how its reason is stored.
pub enum RestView {
    AtOnce,
    Flapping(u128),
    Retry(ErrorView, u128),
}

impl View for Rest {
    type V = RestView;

    open spec fn view(&self) -> RestView {
        match *self {
            Rest::AtOnce => RestView::AtOnce,
            Rest::Flapping(pause) => RestView::Flapping(pause),
            Rest::Retry(error, pause) => RestView::Retry(error@, pause),
        }
    }
}

/// What has to be done next, without how it is stored.
pub enum TaskView {
    Announce,
    Connect,
    Perform(ActionView),
    Subscribe,
    Follow,
    Wait(u128),
    Sleep(RestView),
    Exit(Result<(), ErrorView>),
}

impl View for Task {
    type V = TaskView;

    open spec fn view(&self) -> TaskView {
        match *self {
            Task::Announce => TaskView::Announce,
            Task::Connect => TaskView::Connect,
            Task::Perform(action) => TaskView::Perform(action@),
            Task::Subscribe => TaskView::Subscribe,
            Task::Follow => TaskView::Follow,
            Task::Wait(until) => TaskView::Wait(until),
            Task::Sleep(rest) => TaskView::Sleep(rest@),
            Task::Exit(result) => TaskView::Exit(result_view(result)),
        }
    }
}

/// A result, without how its error is stored.
pub open spec fn result_view(result: Result<(), BridgeError>) -> Result<(), ErrorView> {
    match result {
        Ok(_) => Ok(()),
        Err(error) => Err(error@),
    }
}

/// The daemon.
#[derive(Debug, PartialEq, Eq)]
pub struct Daemon {
    pub bridge: Bridge,
    pub supervisor: Supervisor,
    pub session: Session,
    /// What has arrived and was not looked at yet.
    pub arrived: Arrived,
    /// When the session began.
    pub started: u128,
    /// Whether a single update is all there is to do.
    pub once: bool,
    pub stage: Stage,
}

/// The daemon, without how it is stored.
pub struct DaemonView {
    pub bridge: BridgeView,
    pub supervisor: Supervisor,
    pub session: Session,
    pub arrived: Arrived,
    pub started: u128,
    pub once: bool,
    pub stage: Stage,
}

impl View for Daemon {
    type V = DaemonView;

    open spec fn view(&self) -> DaemonView {
        DaemonView {
            bridge: self.bridge@,
            supervisor: self.supervisor,
            session: self.session,
            arrived: self.arrived,
            started: self.started,
            once: self.once,
            stage: self.stage,
        }
    }
}

/// A state of the daemon and what has to be done in it.
pub type Move = (DaemonView, TaskView);

/// What has arrived, old and new together. What was there stays.
pub open spec fn joined(before: Arrived, more: Arrived) -> Arrived {
    Arrived {
        change: if before.change is Some {
            before.change
        } else {
            more.change
        },
        event: if before.event is Some {
            before.event
        } else {
            more.event
        },
    }
}

impl DaemonView {
    /// Whether the state makes sense: the bridge is busy exactly while it is
    /// given something to do, no device is open before everything has begun, and
    /// nobody waits beyond the time at which the dongle has to hear again.
    pub open spec fn wf(self) -> bool {
        &&& self.bridge.wf()
        &&& self.supervisor.wf()
        &&& self.bridge.phase is Idle <==> !(self.stage is Working || self.stage is Updating)
        &&& match self.stage {
            Stage::Updating(job) => job is Ready || job is Beat,
            _ => true,
        }
        &&& self.stage is Announcing || self.stage is Starting ==> self.bridge.qube.path is None
        &&& self.stage is Waiting || self.stage is Probing ==> self.session.timely(self.bridge)
    }

    /// Whether this is what the daemon is waiting for.
    pub open spec fn awaits(self, outcome: Outcome) -> bool {
        match outcome {
            Outcome::Announced => self.stage is Announcing,
            Outcome::Connected(_) => self.stage is Starting || self.stage is Probing,
            Outcome::Performed(event) => (self.stage is Working || self.stage is Updating)
                && self.bridge.awaits(event),
            Outcome::Subscribed(_) => self.stage is Subscribing,
            Outcome::Followed(_) => self.stage is Following,
            Outcome::Arrived(_) => self.stage is Waiting,
            Outcome::Rested => self.stage is Resting,
        }
    }

    /// In a new stage with something to do.
    pub open spec fn at(self, stage: Stage, task: TaskView) -> Move {
        (DaemonView { stage, ..self }, task)
    }

    /// The bridge was told something. Either it has something to do, or its job
    /// is over.
    pub open spec fn bridged(self, turn: Turn, now: u128) -> Move {
        let told = DaemonView { bridge: turn.0, ..self };
        match turn.1 {
            ActionView::Done(result) => told.job_over(result, now),
            action => told.at(self.stage, TaskView::Perform(action)),
        }
    }

    /// Has the bridge do something.
    pub open spec fn run(self, stage: Stage, job: Job, now: u128) -> Move {
        let begun = self.bridge.begun(job, now);
        match begun.1 {
            ActionView::Done(_) => DaemonView { bridge: begun.0, ..self }.settle(now),
            action => DaemonView { bridge: begun.0, ..self }.at(stage, TaskView::Perform(action)),
        }
    }

    /// Back to waiting, after a look at whatever may have arrived meanwhile.
    pub open spec fn settle(self, now: u128) -> Move {
        self.at(Stage::Waiting, TaskView::Wait(now))
    }

    /// What follows a job of the bridge: the second half of a single update, the
    /// end of one, or the rest of the session.
    pub open spec fn job_over(self, result: Result<(), ErrorView>, now: u128) -> Move {
        match self.stage {
            Stage::Updating(Job::Ready) => match result {
                Ok(_) => self.run(Stage::Updating(Job::Beat), Job::Beat, now),
                Err(_) => self.at(Stage::Over, TaskView::Exit(result)),
            },
            Stage::Updating(_) => self.at(Stage::Over, TaskView::Exit(result)),
            Stage::Working(job) => match result {
                Ok(_) => DaemonView {
                    session: self.session.worked(self.bridge, job, now),
                    ..self
                }.settle(now),
                Err(error) => self.failed(error, now),
            },
            _ => self.settle(now),
        }
    }

    /// The daemon is up: a single update, or the first session.
    pub open spec fn launched(self, now: u128) -> Move {
        if self.once {
            let begun = self.bridge.begun(Job::Ready, now);
            DaemonView { bridge: begun.0, ..self }.at(
                Stage::Updating(Job::Ready),
                TaskView::Perform(begun.1),
            )
        } else {
            self.fresh_session(now)
        }
    }

    /// A session begins with the subscription. Nothing that arrived in an
    /// earlier one counts any more.
    pub open spec fn fresh_session(self, now: u128) -> Move {
        DaemonView { started: now, arrived: Arrived { change: None, event: None }, ..self }.at(
            Stage::Subscribing,
            TaskView::Subscribe,
        )
    }

    /// The subscription stands, and so does the following of the layout source,
    /// if there is one.
    pub open spec fn session_open(self, now: u128) -> Move {
        DaemonView {
            session: Session {
                deadline: due_by(now, self.bridge),
                next_layout_probe: (now + LAYOUT_PROBE) as u128,
            },
            ..self
        }.settle(now)
    }

    /// How long the session has lasted.
    pub open spec fn lasted(self, now: u128) -> u128 {
        if now >= self.started {
            (now - self.started) as u128
        } else {
            0
        }
    }

    /// The session is over because of an error: the device is let go of, all that
    /// was believed of it is forgotten, and there is a pause.
    pub open spec fn failed(self, error: ErrorView, now: u128) -> Move {
        let patience = self.supervisor.forgiven(self.lasted(now));
        DaemonView {
            bridge: BridgeView {
                qube: self.bridge.qube.closed(),
                pushed: nothing_pushed(),
                ..self.bridge
            },
            supervisor: patience.failed(),
            ..self
        }.at(Stage::Resting, TaskView::Sleep(RestView::Retry(error, patience.backoff)))
    }

    /// The session is over because the next one has to be built differently.
    pub open spec fn restarted(self, now: u128) -> Move {
        let patience = self.supervisor.forgiven(self.lasted(now)).restarted();
        let after = DaemonView { supervisor: patience, ..self };
        if patience.rapid_restarts > RAPID_RESTART_LIMIT {
            after.at(Stage::Resting, TaskView::Sleep(RestView::Flapping(RECONNECT_MIN)))
        } else {
            after.fresh_session(now)
        }
    }

    /// The daemon with another layout source, or none.
    pub open spec fn with_layouts(self, layouts: Option<Seq<Seq<char>>>) -> DaemonView {
        DaemonView { bridge: BridgeView { layouts, ..self.bridge }, ..self }
    }

    /// Turns to what comes first.
    pub open spec fn turn_to(self, wake: Wake, now: u128) -> Move {
        match wake {
            Wake::Change(Change::Active(index)) => self.run(
                Stage::Working(Job::Switched(index)),
                Job::Switched(index),
                now,
            ),
            Wake::Change(Change::ListEdited) => self.run(
                Stage::Working(Job::Edited),
                Job::Edited,
                now,
            ),
            Wake::Change(Change::Lost) => self.with_layouts(None).restarted(now),
            Wake::Change(Change::Unreadable) => self.settle(now),
            Wake::Probe => DaemonView {
                session: Session {
                    next_layout_probe: (now + LAYOUT_PROBE) as u128,
                    ..self.session
                },
                ..self
            }.at(Stage::Probing, TaskView::Connect),
            Wake::Beat => self.run(Stage::Working(Job::Beat), Job::Beat, now),
            Wake::Event(Ok(_)) => DaemonView {
                session: self.session.hinted(now),
                ..self
            }.settle(now),
            Wake::Event(Err(error)) => self.failed(ErrorView::Herdr(error), now),
            Wake::Wait(until) => self.at(Stage::Waiting, TaskView::Wait(until)),
        }
    }

    /// Looks at everything that has arrived, and at the time.
    pub open spec fn looked(self, more: Arrived, now: u128) -> Move {
        let arrived = joined(self.arrived, more);
        let wake = self.session.first(probing(self.bridge), arrived, now);
        DaemonView { arrived: left_over(arrived, wake), ..self }.turn_to(wake, now)
    }

    /// What comes after an outcome.
    pub open spec fn next(self, outcome: Outcome, now: u128) -> Move {
        match (self.stage, outcome) {
            (Stage::Announcing, Outcome::Announced) => if self.bridge.wants_layout {
                self.at(Stage::Starting, TaskView::Connect)
            } else {
                self.launched(now)
            },
            (Stage::Starting, Outcome::Connected(Ok(layouts))) => self.with_layouts(
                Some(layouts@),
            ).launched(now),
            (Stage::Starting, Outcome::Connected(Err(_))) => self.launched(now),
            (Stage::Probing, Outcome::Connected(Ok(layouts))) => self.with_layouts(
                Some(layouts@),
            ).restarted(now),
            (Stage::Probing, Outcome::Connected(Err(_))) => self.settle(now),
            (_, Outcome::Performed(event)) => self.bridged(self.bridge.next(event, now), now),
            (Stage::Subscribing, Outcome::Subscribed(Ok(_))) => if self.bridge.layouts is Some {
                self.at(Stage::Following, TaskView::Follow)
            } else {
                self.session_open(now)
            },
            (Stage::Subscribing, Outcome::Subscribed(Err(error))) => self.failed(
                ErrorView::Herdr(error),
                now,
            ),
            (Stage::Following, Outcome::Followed(followed)) => if followed {
                self.session_open(now)
            } else {
                self.with_layouts(None).session_open(now)
            },
            (Stage::Waiting, Outcome::Arrived(more)) => self.looked(more, now),
            (Stage::Resting, Outcome::Rested) => self.fresh_session(now),
            _ => self.settle(now),
        }
    }
}

/// What is left of what has arrived once the session turned to something.
pub open spec fn left_over(arrived: Arrived, wake: Wake) -> Arrived {
    match wake {
        Wake::Change(_) => Arrived { change: None, event: arrived.event },
        Wake::Event(_) => Arrived { change: arrived.change, event: None },
        _ => arrived,
    }
}

/// The daemon as it starts up.
pub open spec fn fresh(bridge: BridgeView, once: bool, now: u128) -> DaemonView {
    DaemonView {
        bridge,
        supervisor: Supervisor { backoff: RECONNECT_MIN, rapid_restarts: 0 },
        session: Session { deadline: now, next_layout_probe: (now + LAYOUT_PROBE) as u128 },
        arrived: Arrived { change: None, event: None },
        started: now,
        once,
        stage: Stage::Announcing,
    }
}

impl Daemon {
    /// Starts up. That the daemon is up is told before the dongle is even looked
    /// for: it is ready to do its job whether or not the keyboard is plugged in.
    pub fn start(bridge: Bridge, once: bool, now: u128) -> (begun: (Daemon, Task))
        requires
            bridge@.wf(),
            bridge@.phase is Idle,
            bridge@.qube.path is None,
            now <= LATEST,
        ensures
            begun.0@.wf(),
            begun.0@ == fresh(bridge@, once, now),
            begun.1 == Task::Announce,
    {
        let daemon = Daemon {
            bridge,
            supervisor: Supervisor::new(),
            session: Session {
                deadline: now,
                next_layout_probe: now + LAYOUT_PROBE,
            },
            arrived: Arrived { change: None, event: None },
            started: now,
            once,
            stage: Stage::Announcing,
        };
        (daemon, Task::Announce)
    }

    /// Whether this is what the daemon is waiting for.
    pub fn is_awaiting(&self, outcome: &Outcome) -> (awaited: bool)
        ensures
            awaited == self@.awaits(*outcome),
    {
        match (&self.stage, outcome) {
            (Stage::Announcing, Outcome::Announced) => true,
            (Stage::Starting, Outcome::Connected(_)) => true,
            (Stage::Probing, Outcome::Connected(_)) => true,
            (Stage::Working(_), Outcome::Performed(event)) => self.bridge.is_awaiting(event),
            (Stage::Updating(_), Outcome::Performed(event)) => self.bridge.is_awaiting(event),
            (Stage::Subscribing, Outcome::Subscribed(_)) => true,
            (Stage::Following, Outcome::Followed(_)) => true,
            (Stage::Waiting, Outcome::Arrived(_)) => true,
            (Stage::Resting, Outcome::Rested) => true,
            _ => false,
        }
    }

    /// Takes in how the last task went, and says what comes next.
    pub fn step(&mut self, outcome: Outcome, now: u128) -> (task: Task)
        requires
            old(self)@.wf(),
            old(self)@.awaits(outcome),
            now <= LATEST,
            old(self).bridge.qube.writes < u64::MAX,
            old(self).bridge.qube.opens < u64::MAX,
            old(self).supervisor.rapid_restarts < u32::MAX,
        ensures
            (final(self)@, task@) == old(self)@.next(outcome, now),
            final(self)@.wf(),
    {
        match outcome {
            Outcome::Announced => if self.bridge.wants_layout {
                self.stage = Stage::Starting;
                Task::Connect
            } else {
                self.launch(now)
            },
            Outcome::Connected(found) => self.connected(found, now),
            Outcome::Performed(event) => {
                let action = self.bridge.step(event, now);
                self.bridged(action, now)
            },
            Outcome::Subscribed(events) => match events {
                Ok(_) => if self.bridge.layouts.is_some() {
                    self.stage = Stage::Following;
                    Task::Follow
                } else {
                    self.open_session(true, now)
                },
                Err(error) => self.end_session(Err(BridgeError::Herdr(error)), now),
            },
            Outcome::Followed(followed) => self.open_session(followed, now),
            Outcome::Arrived(more) => self.look(more, now),
            Outcome::Rested => self.begin_session(now),
        }
    }

    fn connected(&mut self, found: Result<KdeLayouts, LayoutError>, now: u128) -> (task: Task)
        requires
            old(self)@.wf(),
            old(self)@.stage is Starting || old(self)@.stage is Probing,
            now <= LATEST,
            old(self).supervisor.rapid_restarts < u32::MAX,
        ensures
            (final(self)@, task@) == old(self)@.next(Outcome::Connected(found), now),
            final(self)@.wf(),
    {
        if let Stage::Starting = self.stage {
            if let Ok(layouts) = found {
                self.bridge.set_layouts(Some(layouts));
            }
            return self.launch(now);
        }
        match self.session.after_connect(&mut self.bridge, found) {
            Step::End(result) => self.end_session(result, now),
            _ => self.settle(now),
        }
    }

    fn launch(&mut self, now: u128) -> (task: Task)
        requires
            old(self)@.wf(),
            old(self)@.stage is Announcing || old(self)@.stage is Starting,
        ensures
            (final(self)@, task@) == old(self)@.launched(now),
            final(self)@.wf(),
    {
        if self.once {
            let action = self.bridge.begin(Job::Ready, now);
            self.stage = Stage::Updating(Job::Ready);
            Task::Perform(action)
        } else {
            self.begin_session(now)
        }
    }

    fn begin_session(&mut self, now: u128) -> (task: Task)
        requires
            old(self)@.wf(),
            old(self)@.bridge.phase is Idle,
        ensures
            (final(self)@, task@) == old(self)@.fresh_session(now),
            final(self)@.wf(),
    {
        self.started = now;
        self.arrived = Arrived { change: None, event: None };
        self.stage = Stage::Subscribing;
        Task::Subscribe
    }

    fn open_session(&mut self, followed: bool, now: u128) -> (task: Task)
        requires
            old(self)@.wf(),
            old(self)@.bridge.phase is Idle,
            now <= LATEST,
        ensures
            (final(self)@, task@) == (if followed {
                old(self)@.session_open(now)
            } else {
                old(self)@.with_layouts(None).session_open(now)
            }),
            final(self)@.wf(),
    {
        self.session = Session::open(&mut self.bridge, followed, now);
        self.settle(now)
    }

    fn settle(&mut self, now: u128) -> (task: Task)
        requires
            old(self)@.bridge.wf(),
            old(self)@.supervisor.wf(),
            old(self)@.bridge.phase is Idle,
            old(self)@.session.timely(old(self)@.bridge),
        ensures
            (final(self)@, task@) == old(self)@.settle(now),
            final(self)@.wf(),
    {
        self.stage = Stage::Waiting;
        Task::Wait(now)
    }

    fn bridged(&mut self, action: Action, now: u128) -> (task: Task)
        requires
            old(self)@.stage is Working || old(self)@.stage is Updating,
            old(self)@.stage matches Stage::Updating(job) ==> job is Ready || job is Beat,
            consistent((old(self)@.bridge, action@)),
            old(self)@.supervisor.wf(),
            now <= LATEST,
            old(self).supervisor.rapid_restarts < u32::MAX,
        ensures
            (final(self)@, task@) == old(self)@.bridged((old(self)@.bridge, action@), now),
            final(self)@.wf(),
    {
        let result = match action {
            Action::Done(result) => result,
            action => {
                return Task::Perform(action);
            },
        };
        match self.stage {
            Stage::Updating(Job::Ready) => match result {
                Ok(_) => self.run_job(Stage::Updating(Job::Beat), Job::Beat, now),
                Err(error) => {
                    self.stage = Stage::Over;
                    Task::Exit(Err(error))
                },
            },
            Stage::Working(job) => match self.session.after_job(&self.bridge, job, result, now) {
                Step::End(result) => self.end_session(result, now),
                _ => self.settle(now),
            },
            _ => {
                self.stage = Stage::Over;
                Task::Exit(result)
            },
        }
    }

    fn run_job(&mut self, stage: Stage, job: Job, now: u128) -> (task: Task)
        requires
            old(self)@.bridge.wf(),
            old(self)@.supervisor.wf(),
            old(self)@.bridge.phase is Idle,
            stage == Stage::Working(job) || stage == Stage::Updating(job) && job is Beat,
            stage is Working ==> old(self)@.session.timely(old(self)@.bridge),
        ensures
            (final(self)@, task@) == old(self)@.run(stage, job, now),
            final(self)@.wf(),
    {
        match self.bridge.begin(job, now) {
            Action::Done(_) => self.settle(now),
            action => {
                self.stage = stage;
                Task::Perform(action)
            },
        }
    }

    fn end_session(&mut self, outcome: Result<(), BridgeError>, now: u128) -> (task: Task)
        requires
            old(self)@.bridge.wf(),
            old(self)@.supervisor.wf(),
            old(self)@.bridge.phase is Idle,
            old(self).supervisor.rapid_restarts < u32::MAX,
        ensures
            (final(self)@, task@) == (match outcome {
                Ok(_) => old(self)@.restarted(now),
                Err(error) => old(self)@.failed(error@, now),
            }),
            final(self)@.wf(),
    {
        let lasted: u128 = if now >= self.started {
            now - self.started
        } else {
            0
        };
        match self.supervisor.session_ended(&mut self.bridge, outcome, lasted) {
            Rest::AtOnce => {
                self.stage = Stage::Resting;
                self.begin_session(now)
            },
            rest => {
                self.stage = Stage::Resting;
                Task::Sleep(rest)
            },
        }
    }

    fn look(&mut self, more: Arrived, now: u128) -> (task: Task)
        requires
            old(self)@.wf(),
            old(self)@.stage is Waiting,
            now <= LATEST,
            old(self).supervisor.rapid_restarts < u32::MAX,
        ensures
            (final(self)@, task@) == old(self)@.looked(more, now),
            final(self)@.wf(),
    {
        if self.arrived.change.is_none() {
            self.arrived.change = more.change;
        }
        if self.arrived.event.is_none() {
            self.arrived.event = more.event;
        }
        let probing = is_probing(&self.bridge);
        let wake = self.session.wake(probing, &mut self.arrived, now);
        if let Wake::Wait(until) = wake {
            self.stage = Stage::Waiting;
            return Task::Wait(until);
        }
        match self.session.handle(&mut self.bridge, wake, now) {
            Step::Run(job) => self.run_job(Stage::Working(job), job, now),
            Step::Connect => {
                self.stage = Stage::Probing;
                Task::Connect
            },
            Step::End(result) => self.end_session(result, now),
            Step::Again => self.settle(now),
        }
    }
}

/// Whether a move is one that an outcome can be handed to.
pub open spec fn sound(step: Move) -> bool {
    let (state, task) = step;
    &&& state.wf()
    &&& match task {
        TaskView::Announce => state.stage is Announcing,
        TaskView::Connect => state.stage is Starting || state.stage is Probing,
        TaskView::Perform(action) => (state.stage is Working || state.stage is Updating)
            && consistent((state.bridge, action)) && !(action is Done),
        TaskView::Subscribe => state.stage is Subscribing,
        TaskView::Follow => state.stage is Following && state.bridge.layouts is Some,
        TaskView::Wait(_) => state.stage is Waiting,
        TaskView::Sleep(rest) => state.stage is Resting && !(rest is AtOnce),
        TaskView::Exit(_) => state.stage is Over,
    }
}

/// Whatever happens, the daemon stays sound, and what it asks for is what it
/// then waits for.
pub proof fn law_every_move_is_sound(state: DaemonView, outcome: Outcome, now: u128)
    requires
        state.wf(),
        state.awaits(outcome),
        now <= LATEST,
        state.supervisor.rapid_restarts < u32::MAX,
    ensures
        sound(state.next(outcome, now)),
{
    match outcome {
        Outcome::Performed(event) => {
            law_every_turn_is_consistent(state.bridge, Job::Beat, event, now);
            lemma_bridged_is_sound(state, state.bridge.next(event, now), now);
        },
        Outcome::Arrived(more) => lemma_looked_is_sound(state, more, now),
        _ => {},
    }
}

/// What follows a turn of the bridge is sound.
proof fn lemma_bridged_is_sound(state: DaemonView, turn: Turn, now: u128)
    requires
        state.wf(),
        state.stage is Working || state.stage is Updating,
        consistent(turn),
        now <= LATEST,
        state.supervisor.rapid_restarts < u32::MAX,
    ensures
        sound(state.bridged(turn, now)),
{
    if turn.1 is Done {
        law_every_turn_is_consistent(turn.0, Job::Beat, Event::Clock(0, 0), now);
    }
}

/// What follows a look is sound.
proof fn lemma_looked_is_sound(state: DaemonView, more: Arrived, now: u128)
    requires
        state.wf(),
        state.stage is Waiting,
        now <= LATEST,
        state.supervisor.rapid_restarts < u32::MAX,
    ensures
        sound(state.looked(more, now)),
{
    let arrived = joined(state.arrived, more);
    let wake = state.session.first(probing(state.bridge), arrived, now);
    match wake {
        Wake::Change(Change::Active(index)) => {
            law_every_turn_is_consistent(
                state.bridge,
                Job::Switched(index),
                Event::Clock(0, 0),
                now,
            );
        },
        Wake::Change(Change::ListEdited) => {
            law_every_turn_is_consistent(state.bridge, Job::Edited, Event::Clock(0, 0), now);
        },
        _ => {
            law_every_turn_is_consistent(state.bridge, Job::Beat, Event::Clock(0, 0), now);
        },
    }
}

/// That the daemon is up is told once, before anything else: it is what `start`
/// asks for, and no outcome asks for it again.
pub proof fn law_readiness_is_announced_once(state: DaemonView, outcome: Outcome, now: u128)
    requires
        state.wf(),
        state.awaits(outcome),
    ensures
        !(state.next(outcome, now).1 is Announce),
        !(state.next(outcome, now).0.stage is Announcing),
{
}

/// The heartbeat is kept: whatever comes in, a daemon that waits does so no longer
/// than until a heartbeat after the counts that the dongle has, or, where there
/// is a layout source, until a refresh after its last layout.
pub proof fn law_nobody_waits_past_the_heartbeat(
    state: DaemonView,
    outcome: Outcome,
    now: u128,
)
    requires
        state.wf(),
        state.awaits(outcome),
        now <= LATEST,
        state.supervisor.rapid_restarts < u32::MAX,
    ensures
        ({
            let (after, task) = state.next(outcome, now);
            task matches TaskView::Wait(until) ==> {
                &&& after.session.timely(after.bridge)
                &&& until <= now || until <= after.session.deadline
                &&& after.bridge.pushed.counts_at matches Some(at) ==> until <= now || until <= at
                    + HEARTBEAT
                &&& after.bridge.layouts is Some && after.bridge.pushed.layout_at is Some ==> until
                    <= now || until <= after.bridge.pushed.layout_at->0 + LAYOUT_REFRESH
            }
        }),
{
    law_every_move_is_sound(state, outcome, now);
}

/// And once that time has come, a beat begins: nothing but a layout change or a
/// look for the layout service goes before it.
pub proof fn law_a_due_heartbeat_begins_a_beat(
    state: DaemonView,
    more: Arrived,
    at: u128,
    now: u128,
)
    requires
        state.wf(),
        state.stage is Waiting,
        state.bridge.pushed.counts_at == Some(at),
        now >= at + HEARTBEAT,
        state.arrived.change is None,
        more.change is None,
        !(probing(state.bridge) && now >= state.session.next_layout_probe),
    ensures
        ({
            let seen = DaemonView { arrived: joined(state.arrived, more), ..state };
            state.next(Outcome::Arrived(more), now) == seen.run(
                Stage::Working(Job::Beat),
                Job::Beat,
                now,
            )
        }),
{
}

/// A daemon that is not asked for a single update never leaves, whatever goes
/// wrong.
pub proof fn law_the_daemon_stays_running(state: DaemonView, outcome: Outcome, now: u128)
    requires
        state.wf(),
        state.awaits(outcome),
        !state.once,
        !(state.stage is Updating),
    ensures
        !(state.next(outcome, now).1 is Exit),
        !state.next(outcome, now).0.once,
        !(state.next(outcome, now).0.stage is Updating),
{
}

/// A single update neither subscribes nor waits nor sleeps: it does its two jobs
/// and leaves with how they went.
pub proof fn law_a_single_update_is_all_there_is(
    state: DaemonView,
    outcome: Outcome,
    now: u128,
)
    requires
        state.wf(),
        state.awaits(outcome),
        state.once,
        state.stage is Announcing || state.stage is Starting || state.stage is Updating,
    ensures
        state.next(outcome, now).0.once,
        state.next(outcome, now).1 is Perform || state.next(outcome, now).1 is Exit
            || state.stage is Announcing && state.next(outcome, now).1 is Connect,
        state.next(outcome, now).0.stage is Updating || state.next(outcome, now).0.stage is Over
            || state.next(outcome, now).0.stage is Starting,
        state.next(outcome, now).1 matches TaskView::Exit(Ok(_)) ==> state.stage
            == Stage::Updating(Job::Beat),
{
}

/// A session that fails is followed by a pause, and the device and all that was
/// believed of it are forgotten: the next session opens the device and sends
/// everything again.
pub proof fn law_a_failed_session_starts_over(state: DaemonView, error: ErrorView, now: u128)
    ensures
        ({
            let (after, task) = state.failed(error, now);
            &&& task == TaskView::Sleep(
                RestView::Retry(error, state.supervisor.forgiven(state.lasted(now)).backoff),
            )
            &&& after.bridge.qube.path is None
            &&& after.bridge.pushed == nothing_pushed()
            &&& after.bridge.layouts == state.bridge.layouts
        }),
{
}

/// The layout source is optional. Losing it ends the session without an error:
/// the device stays open and nothing that was pushed is forgotten, so the clock
/// and the counts go on as they were, and the source is looked for again.
pub proof fn law_losing_the_layout_source_costs_only_the_layout(
    state: DaemonView,
    more: Arrived,
    now: u128,
)
    requires
        state.wf(),
        state.stage is Waiting,
        state.arrived.change is None,
        more.change == Some(Change::Lost),
    ensures
        ({
            let (after, task) = state.next(Outcome::Arrived(more), now);
            &&& after.bridge == (BridgeView { layouts: None, ..state.bridge })
            &&& task is Subscribe || task is Sleep
            &&& after.supervisor.backoff == state.supervisor.forgiven(state.lasted(now)).backoff
            &&& state.bridge.wants_layout ==> probing(after.bridge)
        }),
{
}

/// Nor is a missing layout service a failure, at the start or later: the daemon
/// goes on without it.
pub proof fn law_a_missing_layout_service_is_no_failure(
    state: DaemonView,
    error: LayoutError,
    now: u128,
)
    requires
        state.wf(),
        state.stage is Starting || state.stage is Probing || state.stage is Following,
    ensures
        state.stage is Starting ==> state.next(Outcome::Connected(Err(error)), now)
            == state.launched(now),
        state.stage is Probing ==> state.next(Outcome::Connected(Err(error)), now)
            == state.settle(now),
        state.stage is Following ==> state.next(Outcome::Followed(false), now)
            == state.with_layouts(None).session_open(now),
{
}

/// The first beat of a session comes at once.
pub proof fn law_a_session_begins_with_a_beat(state: DaemonView, now: u128, later: u128)
    requires
        state.wf(),
        state.stage is Subscribing || state.stage is Following,
        state.arrived == (Arrived { change: None, event: None }),
        now <= later < now + LAYOUT_PROBE,
        now <= LATEST,
    ensures
        ({
            let opened = state.session_open(now).0;
            let none = Arrived { change: None, event: None };
            opened.next(Outcome::Arrived(none), later) == opened.run(
                Stage::Working(Job::Beat),
                Job::Beat,
                later,
            )
        }),
{
}

/// A wanted layout service that is missing is looked for again and again: once
/// its time has come nothing but a layout change goes before the look, and the
/// next look is armed in the same breath.
pub proof fn law_a_missing_layout_service_is_looked_for(
    state: DaemonView,
    more: Arrived,
    now: u128,
)
    requires
        state.wf(),
        state.stage is Waiting,
        probing(state.bridge),
        now >= state.session.next_layout_probe,
        now <= LATEST,
        state.arrived.change is None,
        more.change is None,
    ensures
        ({
            let (after, task) = state.next(Outcome::Arrived(more), now);
            &&& task is Connect
            &&& after.session.next_layout_probe == now + LAYOUT_PROBE
            &&& after.session.deadline == state.session.deadline
        }),
{
}

} // verus!
