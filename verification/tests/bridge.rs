use qubeherd::bridge::{Action, Bridge, BridgeError, Event, Job, News, Pushed};
use qubeherd::herdr::{AgentCounts, HerdrError, Step};
use qubeherd::hidraw::Candidate;
use qubeherd::layout::{Handshake, KdeLayouts, LAYOUT_EN, LAYOUT_RU};
use qubeherd::path::FilePath;
use qubeherd::qube::{Qube, QubeError};

const SECOND: u128 = 1_000_000_000;

fn entry(name: &str) -> (String, String, String) {
    (name.to_string(), String::new(), String::new())
}

fn layouts(names: &[&str]) -> Option<KdeLayouts> {
    let list = names.iter().map(|name| entry(name)).collect();
    KdeLayouts::connect(Handshake::Answered(Some(list))).ok()
}

fn node(number: u32) -> Candidate {
    Candidate {
        path: FilePath::of(&format!("/dev/hidraw{number}")),
        number,
        name: "Ergohaven Qube".to_string(),
    }
}

fn report(front: &[u8]) -> [u8; 33] {
    let mut report = [0u8; 33];
    report[1..=front.len()].copy_from_slice(front);
    report
}

fn counts(working: u8) -> AgentCounts {
    AgentCounts { working, ..AgentCounts::default() }
}

/// Hands over one outcome after another and checks what the bridge answers.
fn follow(bridge: &mut Bridge, now: u128, turns: Vec<(Event, Action)>) {
    for (event, expected) in turns {
        assert!(bridge.is_awaiting(&event), "{event:?}");
        let shown = format!("{event:?}");
        assert_eq!(bridge.step(event, now), expected, "after {shown}");
    }
}

/// A bridge whose device is open and has everything.
fn settled(names: &[&str], now: u128) -> Bridge {
    let mut bridge = Bridge::new(Qube::new(None), layouts(names), true, true);
    assert_eq!(bridge.begin(Job::Beat, now), Action::Search);
    follow(
        &mut bridge,
        now,
        vec![
            (
                Event::Listed(Ok(vec![node(10), node(2)])),
                Action::Open(
                    FilePath::of("/dev/hidraw2"),
                    Some("Ergohaven Qube".to_string()),
                    vec![node(10)],
                ),
            ),
            (Event::Opened(Ok(())), Action::ReadClock),
            (Event::Clock(12, 34), Action::Write(report(&[0xAA, 12, 34]), None)),
            (Event::Wrote(Ok(())), Action::AskIndex),
            (
                Event::Index(Some(1)),
                Action::Write(report(&[0xAC, 1]), Some(News::Layout(LAYOUT_RU))),
            ),
            (Event::Wrote(Ok(())), Action::ReadClock),
            (Event::Clock(12, 34), Action::FetchCounts),
            (
                Event::Counts(Ok(counts(1))),
                Action::Write(report(&[0xB0, 1, 1]), Some(News::Agents(counts(1)))),
            ),
            (Event::Wrote(Ok(())), Action::Done(Ok(()))),
        ],
    );
    bridge
}

#[test]
fn a_first_beat_sends_everything() {
    let bridge = settled(&["us", "ru"], 5 * SECOND);
    assert_eq!(
        bridge.pushed,
        Pushed {
            counts: Some(counts(1)),
            counts_at: Some(5 * SECOND),
            clock: Some((12, 34)),
            layout: Some(LAYOUT_RU),
            layout_at: Some(5 * SECOND),
        }
    );
    assert_eq!(bridge.qube.counters(), (3, 1));
}

#[test]
fn a_quiet_beat_spends_no_packet() {
    let mut bridge = settled(&["us", "ru"], 0);
    let before = bridge.qube.counters();
    assert_eq!(bridge.begin(Job::Beat, SECOND), Action::ReadClock);
    follow(
        &mut bridge,
        SECOND,
        vec![
            (Event::Clock(12, 34), Action::FetchCounts),
            (Event::Counts(Ok(counts(1))), Action::Done(Ok(()))),
        ],
    );
    assert_eq!(bridge.qube.counters(), before);
}

#[test]
fn a_change_goes_out_at_once() {
    let mut bridge = settled(&["us", "ru"], 0);
    assert_eq!(bridge.begin(Job::Beat, SECOND), Action::ReadClock);
    follow(
        &mut bridge,
        SECOND,
        vec![
            (Event::Clock(12, 35), Action::Write(report(&[0xAA, 12, 35]), None)),
            (Event::Wrote(Ok(())), Action::FetchCounts),
            (
                Event::Counts(Ok(counts(2))),
                Action::Write(report(&[0xB0, 1, 2]), Some(News::Agents(counts(2)))),
            ),
            (Event::Wrote(Ok(())), Action::Done(Ok(()))),
        ],
    );
}

#[test]
fn a_heartbeat_repeats_what_is_known_without_news() {
    let mut bridge = settled(&["us", "ru"], 0);
    let now = 10 * SECOND;
    assert_eq!(bridge.begin(Job::Beat, now), Action::ReadClock);
    follow(
        &mut bridge,
        now,
        vec![
            (Event::Clock(12, 34), Action::AskIndex),
            (Event::Index(Some(1)), Action::Write(report(&[0xAC, 1]), None)),
            (Event::Wrote(Ok(())), Action::FetchCounts),
            (Event::Counts(Ok(counts(1))), Action::Write(report(&[0xB0, 1, 1]), None)),
            (Event::Wrote(Ok(())), Action::Done(Ok(()))),
        ],
    );
    let almost = 20 * SECOND - 1;
    assert_eq!(bridge.begin(Job::Beat, almost), Action::ReadClock);
    follow(
        &mut bridge,
        almost,
        vec![
            (Event::Clock(12, 34), Action::FetchCounts),
            (Event::Counts(Ok(counts(1))), Action::Done(Ok(()))),
        ],
    );
}

#[test]
fn a_failed_write_lets_go_of_the_device_and_a_reopen_replays() {
    let mut bridge = settled(&["us", "ru"], 0);
    let now = SECOND;
    assert_eq!(bridge.begin(Job::Beat, now), Action::ReadClock);
    follow(
        &mut bridge,
        now,
        vec![
            (Event::Clock(12, 35), Action::Write(report(&[0xAA, 12, 35]), None)),
            (
                Event::Wrote(Err("unplugged".to_string())),
                Action::Done(Err(BridgeError::Device(QubeError::CannotWrite(
                    "unplugged".to_string(),
                )))),
            ),
        ],
    );
    // Nothing has been reset, and still the reopened device gets it all again.
    assert_eq!(bridge.begin(Job::Beat, now), Action::Search);
    follow(
        &mut bridge,
        now,
        vec![
            (
                Event::Listed(Ok(vec![node(3)])),
                Action::Open(
                    FilePath::of("/dev/hidraw3"),
                    Some("Ergohaven Qube".to_string()),
                    vec![],
                ),
            ),
            (Event::Opened(Ok(())), Action::ReadClock),
            (Event::Clock(12, 35), Action::Write(report(&[0xAA, 12, 35]), None)),
            (Event::Wrote(Ok(())), Action::AskIndex),
            (
                Event::Index(Some(1)),
                Action::Write(report(&[0xAC, 1]), Some(News::Layout(LAYOUT_RU))),
            ),
            (Event::Wrote(Ok(())), Action::ReadClock),
            (Event::Clock(12, 35), Action::FetchCounts),
            (
                Event::Counts(Ok(counts(1))),
                Action::Write(report(&[0xB0, 1, 1]), Some(News::Agents(counts(1)))),
            ),
            (Event::Wrote(Ok(())), Action::Done(Ok(()))),
        ],
    );
}

#[test]
fn every_failure_has_its_name() {
    let fresh = || Bridge::new(Qube::new(None), None, false, false);
    let mut bridge = fresh();
    bridge.begin(Job::Ready, 0);
    follow(
        &mut bridge,
        0,
        vec![(
            Event::Listed(Ok(vec![])),
            Action::Done(Err(BridgeError::Device(QubeError::NotFound))),
        )],
    );
    bridge.begin(Job::Ready, 0);
    follow(
        &mut bridge,
        0,
        vec![(
            Event::Listed(Err("no sysfs".to_string())),
            Action::Done(Err(BridgeError::Device(QubeError::NoListing("no sysfs".to_string())))),
        )],
    );

    let pinned = FilePath::of("/dev/hidraw9");
    let mut bridge = Bridge::new(Qube::new(Some(pinned.copy())), None, false, false);
    assert_eq!(bridge.begin(Job::Ready, 0), Action::Open(pinned.copy(), None, vec![]));
    follow(
        &mut bridge,
        0,
        vec![(
            Event::Opened(Err("denied".to_string())),
            Action::Done(Err(BridgeError::Device(QubeError::CannotOpen(
                pinned.copy(),
                "denied".to_string(),
            )))),
        )],
    );
    bridge.begin(Job::Beat, 0);
    follow(
        &mut bridge,
        0,
        vec![
            (Event::Opened(Ok(())), Action::FetchCounts),
            (
                Event::Counts(Err(HerdrError::TimedOut(Step::Connecting))),
                Action::Done(Err(BridgeError::Herdr(HerdrError::TimedOut(Step::Connecting)))),
            ),
        ],
    );
}

#[test]
fn every_failure_is_told_in_words() {
    let text = |error: QubeError| BridgeError::Device(error).to_text("/s", "/dev/hidraw9");
    let why = || "why".to_string();
    assert_eq!(text(QubeError::NoListing(why())), "listing /sys/class/hidraw: why");
    assert_eq!(text(QubeError::NotFound), "no Ergohaven raw HID interface found");
    assert_eq!(
        text(QubeError::CannotOpen(FilePath::of("/dev/hidraw9"), why())),
        "opening /dev/hidraw9: why"
    );
    assert_eq!(text(QubeError::NotOpen), "device is not open");
    assert_eq!(text(QubeError::CannotWrite(why())), "writing to the dongle: why");
    assert_eq!(
        BridgeError::Herdr(HerdrError::TimedOut(Step::Connecting)).to_text("/s", ""),
        "connecting to /s timed out after 5s"
    );
}

#[test]
fn a_switch_sends_the_layout_alone() {
    let mut bridge = settled(&["us", "ru"], 0);
    assert_eq!(
        bridge.begin(Job::Switched(0), SECOND),
        Action::Write(report(&[0xAC, 0]), Some(News::Layout(LAYOUT_EN)))
    );
    follow(&mut bridge, SECOND, vec![(Event::Wrote(Ok(())), Action::Done(Ok(())))]);
    assert_eq!(bridge.pushed.layout, Some(LAYOUT_EN));
    assert_eq!(bridge.pushed.layout_at, Some(SECOND));
}

#[test]
fn a_switch_beyond_the_list_reads_it_again() {
    let mut bridge = settled(&["us", "ru"], 0);
    assert_eq!(bridge.begin(Job::Switched(2), SECOND), Action::AskList);
    follow(
        &mut bridge,
        SECOND,
        vec![
            (
                Event::List(Some(vec![entry("us"), entry("ru"), entry("gb")])),
                Action::Write(report(&[0xAC, 0]), Some(News::Layout(LAYOUT_EN))),
            ),
            (Event::Wrote(Ok(())), Action::Done(Ok(()))),
        ],
    );
    assert_eq!(bridge.begin(Job::Switched(7), SECOND), Action::AskList);
    follow(&mut bridge, SECOND, vec![(Event::List(None), Action::Done(Ok(())))]);
}

#[test]
fn an_edited_list_is_read_before_the_layout() {
    let mut bridge = settled(&["us", "ru"], 0);
    assert_eq!(bridge.begin(Job::Edited, SECOND), Action::AskList);
    follow(
        &mut bridge,
        SECOND,
        vec![
            (Event::List(Some(vec![entry("ru"), entry("us")])), Action::AskIndex),
            (
                Event::Index(Some(1)),
                Action::Write(report(&[0xAC, 0]), Some(News::Layout(LAYOUT_EN))),
            ),
            (Event::Wrote(Ok(())), Action::Done(Ok(()))),
        ],
    );
}

#[test]
fn an_unknown_layout_is_asked_for_once_a_refresh() {
    let mut bridge = settled(&["us", "ru", "de"], 0);
    let now = 10 * SECOND;
    bridge.begin(Job::Beat, now);
    follow(
        &mut bridge,
        now,
        vec![
            (Event::Clock(12, 34), Action::AskIndex),
            (Event::Index(Some(2)), Action::FetchCounts),
            (Event::Counts(Ok(counts(1))), Action::Write(report(&[0xB0, 1, 1]), None)),
            (Event::Wrote(Ok(())), Action::Done(Ok(()))),
        ],
    );
    assert_eq!(bridge.pushed.layout, Some(LAYOUT_RU), "what was sent last still stands");
    bridge.begin(Job::Beat, now + SECOND);
    follow(
        &mut bridge,
        now + SECOND,
        vec![
            (Event::Clock(12, 34), Action::FetchCounts),
            (Event::Counts(Ok(counts(1))), Action::Done(Ok(()))),
        ],
    );
}

#[test]
fn without_layouts_there_is_nothing_to_switch() {
    let mut bridge = Bridge::new(Qube::new(None), None, true, true);
    assert_eq!(bridge.begin(Job::Switched(0), 0), Action::Done(Ok(())));
    assert_eq!(bridge.begin(Job::Edited, 0), Action::Done(Ok(())));
}

#[test]
fn a_reset_forgets_all_but_the_counters() {
    let mut bridge = settled(&["us", "ru"], 0);
    bridge.reset();
    assert_eq!(bridge.pushed, Pushed::default());
    assert_eq!(bridge.qube.path, None);
    assert_eq!(bridge.qube.counters(), (3, 1));
    assert!(bridge.layouts.is_some());
    bridge.set_layouts(None);
    assert!(bridge.layouts.is_none());
}
