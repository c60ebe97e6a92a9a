use qubeherd::bridge::{Action, Bridge, BridgeError, Event, Job};
use qubeherd::daemon::{Daemon, Outcome, Task};
use qubeherd::herdr::{AgentCounts, Events, HerdrError, Step};
use qubeherd::layout::{Change, Handshake, KdeLayouts, LayoutError};
use qubeherd::options::{default_socket_path, Environment, Options};
use qubeherd::path::FilePath;
use qubeherd::qube::{Qube, QubeError};
use qubeherd::session::{is_probing, Arrived, Session, Wake};
use qubeherd::summary::{Rates, Summary};
use qubeherd::supervisor::{Rest, Supervisor};

const SECOND: u128 = 1_000_000_000;

fn following() -> KdeLayouts {
    let list = vec![("us".to_string(), String::new(), String::new())];
    KdeLayouts::connect(Handshake::Answered(Some(list))).expect("answered")
}

fn options() -> Options {
    Options { socket: None, device: None, once: false, no_clock: true, no_layout: true }
}

fn nothing() -> Outcome {
    Outcome::Arrived(Arrived { change: None, event: None })
}

fn changed(change: Change) -> Outcome {
    Outcome::Arrived(Arrived { change: Some(change), event: None })
}

fn heard(event: Result<(), HerdrError>) -> Outcome {
    Outcome::Arrived(Arrived { change: None, event: Some(event) })
}

fn hung() -> HerdrError {
    HerdrError::TimedOut(Step::ReadingAgentList)
}

fn turn(daemon: &mut Daemon, outcome: Outcome, now: u128, expected: Task) {
    assert!(daemon.is_awaiting(&outcome), "{outcome:?}");
    let shown = format!("{outcome:?}");
    assert_eq!(daemon.step(outcome, now), expected, "after {shown}");
}

/// A daemon that has just said that it is up.
fn started(options: &Options, first: Task) -> Daemon {
    let (mut daemon, task) = Daemon::start(options.bridge(None), options.once, 0);
    assert_eq!(task, Task::Announce);
    turn(&mut daemon, Outcome::Announced, 0, first);
    daemon
}

/// A daemon without layout and clock, its session open, its first beat done.
fn running() -> Daemon {
    let mut daemon = started(&options(), Task::Subscribe);
    turn(&mut daemon, Outcome::Subscribed(Ok(Events {})), 0, Task::Wait(0));
    turn(&mut daemon, nothing(), 0, Task::Perform(Action::Search));
    let mut daemon = beaten(daemon);
    turn(&mut daemon, nothing(), 0, Task::Wait(10 * SECOND));
    daemon
}

/// Sees a beat through that has just been told to search.
fn beaten(mut daemon: Daemon) -> Daemon {
    let found = qubeherd::hidraw::Candidate {
        path: FilePath::of("/dev/hidraw1"),
        number: 1,
        name: "Qube".to_string(),
    };
    daemon.step(Outcome::Performed(Event::Listed(Ok(vec![found]))), 0);
    daemon.step(Outcome::Performed(Event::Opened(Ok(()))), 0);
    daemon.step(Outcome::Performed(Event::Counts(Ok(AgentCounts::default()))), 0);
    turn(&mut daemon, Outcome::Performed(Event::Wrote(Ok(()))), 0, Task::Wait(0));
    daemon
}

#[test]
fn a_session_beats_first_and_then_waits() {
    let daemon = running();
    assert_eq!(daemon.session.deadline, 10 * SECOND);
    assert_eq!(daemon.bridge.qube.counters(), (1, 1));
}

#[test]
fn a_burst_of_events_pulls_the_beat_in_once() {
    let mut daemon = running();
    let now = 2 * SECOND;
    turn(&mut daemon, heard(Ok(())), now, Task::Wait(now));
    let soon = now + 300_000_000;
    turn(&mut daemon, nothing(), now, Task::Wait(soon));
    turn(&mut daemon, heard(Ok(())), now + SECOND / 10, Task::Wait(now + SECOND / 10));
    turn(&mut daemon, nothing(), now + SECOND / 10, Task::Wait(soon));
    turn(&mut daemon, heard(Ok(())), soon, Task::Perform(Action::FetchCounts));
}

#[test]
fn an_event_does_not_put_the_heartbeat_off() {
    let mut daemon = running();
    let mut written = vec![0];
    let mut now = 0;
    // Events at awkward times, and counts that never change.
    for event_at in [9_000_000_000, 19_900_000_000, 21_000_000_000, 35_000_000_000] {
        loop {
            let task = daemon.step(nothing(), now);
            if let Task::Wait(until) = task {
                if until <= now {
                    continue;
                }
                if event_at <= until {
                    now = event_at;
                    turn(&mut daemon, heard(Ok(())), now, Task::Wait(now));
                    break;
                }
                now = until;
                continue;
            }
            assert_eq!(task, Task::Perform(Action::FetchCounts));
            let counted = Outcome::Performed(Event::Counts(Ok(AgentCounts::default())));
            if let Task::Perform(Action::Write(report, news)) = daemon.step(counted, now) {
                assert_eq!((report[1], news), (0xB0, None));
                written.push(now / SECOND);
                turn(&mut daemon, Outcome::Performed(Event::Wrote(Ok(()))), now, Task::Wait(now));
            }
        }
    }
    assert_eq!(written, vec![0, 10, 20, 30]);
}

#[test]
fn the_layout_is_refreshed_in_time_too() {
    let wanted = Options { no_layout: false, ..options() };
    let mut bridge = wanted.bridge(Some(following()));
    bridge.pushed.counts_at = Some(4 * SECOND);
    bridge.pushed.layout_at = Some(3 * SECOND);
    let session = Session::open(&mut bridge, true, 5 * SECOND);
    assert_eq!(session.deadline, 5 * SECOND, "a session begins with a beat");
    let mut session = session;
    session.after_job(&bridge, Job::Beat, Ok(()), 5 * SECOND);
    assert_eq!(session.deadline, 13 * SECOND);
}

#[test]
fn without_layout_and_clock_neither_is_touched() {
    let mut daemon = running();
    for index in [0, 1] {
        turn(&mut daemon, changed(Change::Active(index)), SECOND, Task::Wait(SECOND));
    }
    turn(&mut daemon, changed(Change::ListEdited), SECOND, Task::Wait(SECOND));
    turn(&mut daemon, nothing(), 10 * SECOND, Task::Perform(Action::FetchCounts));
}

#[test]
fn a_lost_connection_is_retried_with_backoff() {
    let mut daemon = running();
    let closed = HerdrError::Closed(Step::ReadingEvents);
    turn(
        &mut daemon,
        heard(Err(HerdrError::Closed(Step::ReadingEvents))),
        SECOND,
        Task::Sleep(Rest::Retry(BridgeError::Herdr(closed), SECOND)),
    );
    assert_eq!(daemon.bridge.qube.path, None, "a failure lets go of the device");
    turn(&mut daemon, Outcome::Rested, 2 * SECOND, Task::Subscribe);
    turn(
        &mut daemon,
        Outcome::Subscribed(Err(hung())),
        3 * SECOND,
        Task::Sleep(Rest::Retry(BridgeError::Herdr(hung()), 2 * SECOND)),
    );
}

#[test]
fn one_update_is_all_that_once_does() {
    let wanted = Options { once: true, ..options() };
    let mut daemon = started(&wanted, Task::Perform(Action::Search));
    turn(
        &mut daemon,
        Outcome::Performed(Event::Listed(Ok(vec![]))),
        0,
        Task::Exit(Err(BridgeError::Device(QubeError::NotFound))),
    );

    let pinned = Options { device: Some(FilePath::of("/dev/hidraw1")), once: true, ..options() };
    let mut daemon = started(
        &pinned,
        Task::Perform(Action::Open(FilePath::of("/dev/hidraw1"), None, vec![])),
    );
    turn(
        &mut daemon,
        Outcome::Performed(Event::Opened(Ok(()))),
        0,
        Task::Perform(Action::FetchCounts),
    );
    daemon.step(Outcome::Performed(Event::Counts(Ok(AgentCounts::default()))), 0);
    turn(&mut daemon, Outcome::Performed(Event::Wrote(Ok(()))), 0, Task::Exit(Ok(())));
}

#[test]
fn a_missing_layout_service_is_looked_for_again() {
    let wanted = Options { no_layout: false, ..options() };
    let mut daemon = started(&wanted, Task::Connect);
    turn(&mut daemon, Outcome::Connected(Err(LayoutError::TimedOut)), 0, Task::Subscribe);
    turn(&mut daemon, Outcome::Subscribed(Ok(Events {})), 0, Task::Wait(0));
    turn(&mut daemon, nothing(), 0, Task::Perform(Action::Search));
    let mut daemon = beaten(daemon);
    turn(&mut daemon, nothing(), 30 * SECOND, Task::Connect);
    turn(
        &mut daemon,
        Outcome::Connected(Err(LayoutError::TimedOut)),
        30 * SECOND,
        Task::Wait(30 * SECOND),
    );
    turn(&mut daemon, nothing(), 60 * SECOND, Task::Connect);
    turn(&mut daemon, Outcome::Connected(Ok(following())), 60 * SECOND, Task::Subscribe);
    turn(&mut daemon, Outcome::Subscribed(Ok(Events {})), 60 * SECOND, Task::Follow);
}

#[test]
fn losing_the_layout_service_keeps_the_rest() {
    let wanted = Options { no_layout: false, ..options() };
    let mut daemon = started(&wanted, Task::Connect);
    turn(&mut daemon, Outcome::Connected(Ok(following())), 0, Task::Subscribe);
    turn(&mut daemon, Outcome::Subscribed(Ok(Events {})), 0, Task::Follow);
    turn(&mut daemon, Outcome::Followed(true), 0, Task::Wait(0));
    turn(&mut daemon, changed(Change::Unreadable), 0, Task::Wait(0));
    turn(&mut daemon, changed(Change::Lost), 0, Task::Subscribe);
    assert!(daemon.bridge.layouts.is_none());
    assert!(is_probing(&daemon.bridge));
}

#[test]
fn a_source_that_cannot_be_followed_is_let_go_of() {
    let wanted = Options { no_layout: false, ..options() };
    let mut daemon = started(&wanted, Task::Connect);
    turn(&mut daemon, Outcome::Connected(Ok(following())), 0, Task::Subscribe);
    turn(&mut daemon, Outcome::Subscribed(Ok(Events {})), 0, Task::Follow);
    turn(&mut daemon, Outcome::Followed(false), 0, Task::Wait(0));
    assert!(daemon.bridge.layouts.is_none());
}

#[test]
fn layout_changes_come_before_the_beat_and_the_beat_before_events() {
    let session = Session { deadline: 5, next_layout_probe: 5 };
    let mut arrived = Arrived { change: Some(Change::Active(1)), event: Some(Ok(())) };
    assert_eq!(session.wake(true, &mut arrived, 5), Wake::Change(Change::Active(1)));
    assert_eq!(session.wake(true, &mut arrived, 5), Wake::Probe);
    assert_eq!(session.wake(false, &mut arrived, 5), Wake::Beat);
    assert_eq!(session.wake(false, &mut arrived, 4), Wake::Event(Ok(())));
    assert_eq!(session.wake(false, &mut arrived, 4), Wake::Wait(5));
    let late_beat = Session { deadline: 9, next_layout_probe: 7 };
    assert_eq!(late_beat.wake(true, &mut arrived, 4), Wake::Wait(7));
    assert_eq!(late_beat.wake(false, &mut arrived, 8), Wake::Wait(9));
}

#[test]
fn an_event_never_pushes_the_beat_out() {
    let mut bridge = options().bridge(None);
    let mut session = Session { deadline: SECOND / 10, next_layout_probe: 0 };
    session.handle(&mut bridge, Wake::Event(Ok(())), 0);
    assert_eq!(session.deadline, SECOND / 10);
    session.after_job(&bridge, Job::Switched(0), Ok(()), SECOND);
    assert_eq!(session.deadline, SECOND / 10);
    session.after_job(&bridge, Job::Beat, Ok(()), SECOND);
    assert_eq!(session.deadline, 11 * SECOND);
    bridge.pushed.counts_at = Some(SECOND / 2);
    session.after_job(&bridge, Job::Beat, Ok(()), SECOND);
    assert_eq!(session.deadline, 10 * SECOND + SECOND / 2);
    bridge.pushed.layout_at = Some(SECOND / 4);
    session.after_job(&bridge, Job::Beat, Ok(()), SECOND);
    assert_eq!(session.deadline, 10 * SECOND + SECOND / 2, "nobody follows the layout");
    bridge.set_layouts(Some(following()));
    session.after_job(&bridge, Job::Beat, Ok(()), SECOND);
    assert_eq!(session.deadline, 10 * SECOND + SECOND / 4);
}

#[test]
fn backoff_doubles_up_to_half_a_minute_and_heals() {
    let mut bridge = Bridge::new(Qube::new(None), None, false, true);
    let mut supervisor = Supervisor::new();
    for seconds in [1, 2, 4, 8, 16, 30, 30] {
        let rest = supervisor.session_ended(&mut bridge, Err(BridgeError::Herdr(hung())), SECOND);
        assert_eq!(rest, Rest::Retry(BridgeError::Herdr(hung()), seconds * SECOND));
    }
    let healed =
        supervisor.session_ended(&mut bridge, Err(BridgeError::Herdr(hung())), 60 * SECOND);
    assert_eq!(healed, Rest::Retry(BridgeError::Herdr(hung()), SECOND));
}

#[test]
fn a_fourth_restart_in_a_row_pauses() {
    let mut bridge = Bridge::new(Qube::new(None), None, true, true);
    let mut supervisor = Supervisor::new();
    for _ in 0..3 {
        assert_eq!(supervisor.session_ended(&mut bridge, Ok(()), 0), Rest::AtOnce);
    }
    assert_eq!(supervisor.session_ended(&mut bridge, Ok(()), 0), Rest::Flapping(SECOND));
    assert_eq!(supervisor.session_ended(&mut bridge, Ok(()), 60 * SECOND), Rest::AtOnce);
}

#[test]
fn the_socket_is_where_the_command_line_or_the_environment_says() {
    let path = |text: &str| Some(FilePath::of(text));
    let environment = |herdr_socket, home| Environment { herdr_socket, home };
    assert_eq!(
        default_socket_path(environment(path("/s"), path("/home/u"))),
        FilePath::of("/s")
    );
    assert_eq!(
        default_socket_path(environment(None, path("/home/u"))),
        FilePath::of("/home/u/.config/herdr/herdr.sock")
    );
    assert_eq!(
        default_socket_path(environment(None, None)),
        FilePath::of("./herdr/herdr.sock")
    );
    let pointed = Options { socket: path("/mine"), ..options() };
    let client = pointed.client(environment(path("/s"), None));
    assert_eq!(client.socket_path, FilePath::of("/mine"));
    let client = options().client(environment(path("/s"), None));
    assert_eq!(client.socket_path, FilePath::of("/s"));
}

#[test]
fn options_shape_the_bridge() {
    let bare = options().bridge(Some(following()));
    assert!(bare.layouts.is_none());
    assert!(!bare.wants_layout && !bare.clock);
    let full = Options { no_clock: false, no_layout: false, ..options() };
    let bridge = full.bridge(Some(following()));
    assert!(bridge.layouts.is_some() && bridge.wants_layout && bridge.clock);
}

#[test]
fn rates_are_by_the_hour() {
    let mut summary = Summary::new((5, 1), 0);
    let quiet = Arrived { change: None, event: None };
    for _ in 0..57 {
        summary.waited(2, 1, &quiet);
    }
    summary.waited(1, 1, &quiet);
    summary.waited(1, 1, &Arrived { change: Some(Change::Lost), event: None });
    summary.waited(2, 1, &Arrived { change: None, event: Some(Ok(())) });
    summary.waited(2, 1, &Arrived { change: None, event: Some(Ok(())) });
    summary.subscribing();
    summary.subscribing();
    assert_eq!(summary.report((65, 2), 600 * SECOND - 1), None);
    assert_eq!(
        summary.report((65, 2), 600 * SECOND),
        Some(Rates { wakeups: 360, events: 12, packets: 360, opens: 6, restarts: 6 })
    );
    assert_eq!(summary, Summary { begun: true, ..Summary::new((65, 2), 600 * SECOND) });
}
