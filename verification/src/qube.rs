//! The packets of the Qube dongle, and the state of the node they go to.
use crate::herdr::AgentCounts;
use crate::path::{opt_path, FilePath};
use crate::text::run_on;
use crate::usage::Usage;
use vstd::prelude::*;

verus! {

/// Packet types, as the firmware numbers them.
pub const PACKET_AGENTS: u8 = 0xB0;

pub const PACKET_AGENTS_VERSION: u8 = 0x01;

pub const PACKET_USAGE: u8 = 0xB1;

pub const PACKET_USAGE_VERSION: u8 = 0x01;

/// A window the daemon could not read at all, as opposed to one sitting at 0%.
pub const PACKET_USAGE_UNKNOWN: u8 = 0xFF;

pub const PACKET_CLOCK: u8 = 0xAA;

pub const PACKET_LAYOUT: u8 = 0xAC;

pub const PACKET_LEN: usize = 32;

/// A packet with the report id in front of it.
pub const REPORT_LEN: usize = 33;

/// A packet that begins with `bytes` and holds zeros from there on.
pub open spec fn padded(bytes: Seq<u8>) -> Seq<u8> {
    Seq::new(
        PACKET_LEN as nat,
        |i: int|
            if i < bytes.len() {
                bytes[i]
            } else {
                0
            },
    )
}

/// The packet that puts agent counts on the screen.
pub open spec fn agents_bytes(counts: AgentCounts) -> Seq<u8> {
    padded(
        seq![
            PACKET_AGENTS,
            PACKET_AGENTS_VERSION,
            counts.working,
            counts.idle,
            counts.blocked,
            counts.done,
            counts.unknown,
        ],
    )
}

pub fn agents_packet(counts: &AgentCounts) -> (payload: [u8; PACKET_LEN])
    ensures
        payload@ == agents_bytes(*counts),
{
    let mut payload: [u8; PACKET_LEN] = [0u8; PACKET_LEN];
    payload[0] = PACKET_AGENTS;
    payload[1] = PACKET_AGENTS_VERSION;
    payload[2] = counts.working;
    payload[3] = counts.idle;
    payload[4] = counts.blocked;
    payload[5] = counts.done;
    payload[6] = counts.unknown;
    assert(payload@ =~= agents_bytes(*counts));
    payload
}

/// The byte for one usage window.
pub open spec fn window_byte(percent: Option<u8>) -> u8 {
    match percent {
        Some(percent) => percent,
        None => PACKET_USAGE_UNKNOWN,
    }
}

/// The packet that reports how much of the limits is spent.
pub open spec fn usage_bytes(usage: Usage) -> Seq<u8> {
    padded(
        seq![
            PACKET_USAGE,
            PACKET_USAGE_VERSION,
            window_byte(usage.five_hour),
            window_byte(usage.seven_day),
        ],
    )
}

pub fn usage_packet(usage: &Usage) -> (payload: [u8; PACKET_LEN])
    ensures
        payload@ == usage_bytes(*usage),
{
    let mut payload: [u8; PACKET_LEN] = [0u8; PACKET_LEN];
    payload[0] = PACKET_USAGE;
    payload[1] = PACKET_USAGE_VERSION;
    payload[2] = usage.five_hour.unwrap_or(PACKET_USAGE_UNKNOWN);
    payload[3] = usage.seven_day.unwrap_or(PACKET_USAGE_UNKNOWN);
    assert(payload@ =~= usage_bytes(*usage));
    payload
}

/// The packet that sets the header clock.
pub open spec fn clock_bytes(hour: u8, minute: u8) -> Seq<u8> {
    padded(seq![PACKET_CLOCK, hour, minute])
}

pub fn clock_packet(hour: u8, minute: u8) -> (payload: [u8; PACKET_LEN])
    ensures
        payload@ == clock_bytes(hour, minute),
{
    let mut payload: [u8; PACKET_LEN] = [0u8; PACKET_LEN];
    payload[0] = PACKET_CLOCK;
    payload[1] = hour;
    payload[2] = minute;
    assert(payload@ =~= clock_bytes(hour, minute));
    payload
}

/// The packet that tells the firmware the host's layout.
pub open spec fn layout_bytes(code: u8) -> Seq<u8> {
    padded(seq![PACKET_LAYOUT, code])
}

pub fn layout_packet(code: u8) -> (payload: [u8; PACKET_LEN])
    ensures
        payload@ == layout_bytes(code),
{
    let mut payload: [u8; PACKET_LEN] = [0u8; PACKET_LEN];
    payload[0] = PACKET_LAYOUT;
    payload[1] = code;
    assert(payload@ =~= layout_bytes(code));
    payload
}

/// A packet as hidraw wants it. The interface has no report id, so a zero
/// stands in front.
pub open spec fn report_of(payload: Seq<u8>) -> Seq<u8> {
    seq![0u8] + payload
}

/// Why a packet did not reach the dongle.
#[derive(Debug, PartialEq, Eq)]
pub enum QubeError {
    /// The hidraw nodes could not be listed, for this reason.
    NoListing(String),
    /// No Ergohaven raw HID interface among them.
    NotFound,
    /// The node could not be opened, for this reason.
    CannotOpen(FilePath, String),
    /// A packet was to be written without an open node.
    NotOpen,
    /// The write failed, for this reason.
    CannotWrite(String),
}

impl QubeError {
    /// The error in words, with the node that was to be opened as it is shown.
    pub open spec fn spelled(self, node: Seq<char>) -> Seq<char> {
        match self {
            QubeError::NoListing(cause) => "listing /sys/class/hidraw: "@ + cause@,
            QubeError::NotFound => "no Ergohaven raw HID interface found"@,
            QubeError::CannotOpen(_, cause) => "opening "@ + node + ": "@ + cause@,
            QubeError::NotOpen => "device is not open"@,
            QubeError::CannotWrite(cause) => "writing to the dongle: "@ + cause@,
        }
    }

    /// Puts the error into words.
    pub fn to_text(&self, node: &str) -> (text: String)
        ensures
            text@ == self.spelled(node@),
    {
        match self {
            QubeError::NoListing(cause) => run_on("listing /sys/class/hidraw: ", cause.as_str()),
            QubeError::NotFound => "no Ergohaven raw HID interface found".to_owned(),
            QubeError::CannotOpen(_, cause) => {
                let mut text = run_on("opening ", node);
                text.append(": ");
                text.append(cause.as_str());
                text
            },
            QubeError::NotOpen => "device is not open".to_owned(),
            QubeError::CannotWrite(cause) => run_on("writing to the dongle: ", cause.as_str()),
        }
    }
}

/// What has to happen before the dongle can be written to.
#[derive(Debug, PartialEq, Eq)]
pub enum Opening {
    /// Nothing: it is open.
    Ready,
    /// This node has to be opened.
    Open(FilePath),
    /// A node has to be found first.
    Search,
}

/// The dongle's raw HID node, reopened across unplug and replug.
#[derive(Debug, PartialEq, Eq)]
pub struct Qube {
    /// The open node, if one is open.
    pub path: Option<FilePath>,
    /// Set by hand to skip the search entirely.
    pub pinned: Option<FilePath>,
    pub writes: u64,
    pub opens: u64,
}

/// What there is to know of a node, without how it is stored.
pub struct QubeView {
    pub path: Option<Seq<u8>>,
    pub pinned: Option<Seq<u8>>,
    pub writes: int,
    pub opens: int,
}

impl View for Qube {
    type V = QubeView;

    open spec fn view(&self) -> QubeView {
        QubeView {
            path: opt_path(self.path),
            pinned: opt_path(self.pinned),
            writes: self.writes as int,
            opens: self.opens as int,
        }
    }
}

impl QubeView {
    /// The node once `path` has been opened.
    pub open spec fn opened(self, path: Seq<u8>) -> QubeView {
        QubeView { path: Some(path), opens: self.opens + 1, ..self }
    }

    /// The node once a packet has reached it.
    pub open spec fn wrote(self) -> QubeView {
        QubeView { writes: self.writes + 1, ..self }
    }

    /// The node once it has been let go of.
    pub open spec fn closed(self) -> QubeView {
        QubeView { path: None, ..self }
    }
}

impl Qube {
    pub fn new(pinned: Option<FilePath>) -> (qube: Qube)
        ensures
            qube@ == (QubeView { path: None, pinned: opt_path(pinned), writes: 0, opens: 0 }),
    {
        Qube { path: None, pinned, writes: 0, opens: 0 }
    }

    /// Packets that reached the device, and how often it had to be opened: both
    /// only meaningful as a rate, which is what the summary reports.
    pub fn counters(&self) -> (counters: (u64, u64))
        ensures
            counters == (self.writes, self.opens),
    {
        (self.writes, self.opens)
    }

    /// Says what is missing before the device can be written to. A pinned node
    /// is opened without a search.
    pub fn ensure_open(&self) -> (opening: Opening)
        ensures
            match opening {
                Opening::Ready => self@.path is Some,
                Opening::Open(path) => self@.path is None && self@.pinned == Some(path@),
                Opening::Search => self@.path is None && self@.pinned is None,
            },
    {
        if self.path.is_some() {
            return Opening::Ready;
        }
        match &self.pinned {
            Some(path) => Opening::Open(path.copy()),
            None => Opening::Search,
        }
    }

    /// Takes in that a node was opened.
    ///
    /// A freshly opened device usually means the keyboard just rebooted, and a
    /// rebooted keyboard has forgotten both the clock and the host layout.
    pub fn opened(&mut self, path: FilePath)
        requires
            old(self).opens < u64::MAX,
        ensures
            final(self)@ == old(self)@.opened(path@),
    {
        self.path = Some(path);
        self.opens = self.opens + 1;
    }

    /// Frames a packet for the open node.
    pub fn write(&self, payload: &[u8; PACKET_LEN]) -> (report: Result<
        [u8; REPORT_LEN],
        QubeError,
    >)
        ensures
            match report {
                Ok(report) => self@.path is Some && report@ == report_of(payload@),
                Err(error) => self@.path is None && error == QubeError::NotOpen,
            },
    {
        if self.path.is_none() {
            return Err(QubeError::NotOpen);
        }
        let mut report: [u8; REPORT_LEN] = [0u8; REPORT_LEN];
        let mut i: usize = 0;
        while i < PACKET_LEN
            invariant
                i <= PACKET_LEN,
                report@[0] == 0,
                forall|j: int| 0 <= j < i ==> report@[j + 1] == payload@[j],
            decreases PACKET_LEN - i,
        {
            report[i + 1] = payload[i];
            i += 1;
        }
        assert(report@ =~= report_of(payload@));
        Ok(report)
    }

    /// Takes in how a write ended. A failing node is let go of, so that it is
    /// opened again the next time.
    pub fn wrote(&mut self, outcome: Result<(), String>) -> (result: Result<(), QubeError>)
        requires
            old(self).writes < u64::MAX,
        ensures
            match outcome {
                Ok(_) => result is Ok && final(self)@ == old(self)@.wrote(),
                Err(cause) => result == Err::<(), QubeError>(QubeError::CannotWrite(cause))
                    && final(self)@ == old(self)@.closed(),
            },
    {
        match outcome {
            Ok(_) => {
                self.writes = self.writes + 1;
                Ok(())
            },
            Err(cause) => {
                self.close();
                Err(QubeError::CannotWrite(cause))
            },
        }
    }

    /// Lets go of the node.
    pub fn close(&mut self)
        ensures
            final(self)@ == old(self)@.closed(),
    {
        self.path = None;
    }
}

/// The packets carry the counts unchanged: two packets are the same only for
/// the same counts.
pub proof fn law_agents_packet_keeps_the_counts(left: AgentCounts, right: AgentCounts)
    requires
        agents_bytes(left) == agents_bytes(right),
    ensures
        left == right,
{
    assert(agents_bytes(left)[2] == left.working && agents_bytes(right)[2] == right.working);
    assert(agents_bytes(left)[3] == left.idle && agents_bytes(right)[3] == right.idle);
    assert(agents_bytes(left)[4] == left.blocked && agents_bytes(right)[4] == right.blocked);
    assert(agents_bytes(left)[5] == left.done && agents_bytes(right)[5] == right.done);
    assert(agents_bytes(left)[6] == left.unknown && agents_bytes(right)[6] == right.unknown);
}

/// The reserved bytes of the agent packet are zero, the flags at byte 7 among
/// them.
pub proof fn law_agents_packet_reserves_zeros(counts: AgentCounts, at: int)
    requires
        7 <= at < PACKET_LEN,
    ensures
        agents_bytes(counts)[at] == 0,
{
}

/// A window that could not be read never looks like one that was, and a packet
/// tells every pair of readings apart from every other.
pub proof fn law_usage_packet_keeps_the_windows(left: Usage, right: Usage)
    requires
        left.in_percent(),
        right.in_percent(),
        usage_bytes(left) == usage_bytes(right),
    ensures
        left.five_hour == right.five_hour,
        left.seven_day == right.seven_day,
{
    assert(usage_bytes(left)[2] == window_byte(left.five_hour));
    assert(usage_bytes(right)[2] == window_byte(right.five_hour));
    assert(usage_bytes(left)[3] == window_byte(left.seven_day));
    assert(usage_bytes(right)[3] == window_byte(right.seven_day));
}

/// The first byte tells the kinds of packet apart.
pub proof fn law_packets_differ_in_kind(
    counts: AgentCounts,
    usage: Usage,
    hour: u8,
    minute: u8,
    code: u8,
)
    ensures
        agents_bytes(counts)[0] == PACKET_AGENTS,
        usage_bytes(usage)[0] == PACKET_USAGE,
        clock_bytes(hour, minute)[0] == PACKET_CLOCK,
        layout_bytes(code)[0] == PACKET_LAYOUT,
        agents_bytes(counts) != usage_bytes(usage),
        agents_bytes(counts) != clock_bytes(hour, minute),
        agents_bytes(counts) != layout_bytes(code),
        usage_bytes(usage) != clock_bytes(hour, minute),
        usage_bytes(usage) != layout_bytes(code),
        clock_bytes(hour, minute) != layout_bytes(code),
{
    assert(agents_bytes(counts)[0] == PACKET_AGENTS);
    assert(usage_bytes(usage)[0] == PACKET_USAGE);
    assert(clock_bytes(hour, minute)[0] == PACKET_CLOCK);
    assert(layout_bytes(code)[0] == PACKET_LAYOUT);
}

/// The packets, byte by byte: the kind, what it carries, and zeros.
pub proof fn law_packets_are_what_the_firmware_reads(
    counts: AgentCounts,
    usage: Usage,
    hour: u8,
    minute: u8,
    code: u8,
)
    ensures
        ({
            let agents = agents_bytes(counts);
            &&& agents.len() == 32
            &&& agents[0] == 0xB0 && agents[1] == 0x01
            &&& agents[2] == counts.working && agents[3] == counts.idle
            &&& agents[4] == counts.blocked && agents[5] == counts.done
            &&& agents[6] == counts.unknown
            &&& forall|i: int| 7 <= i < 32 ==> agents[i] == 0
        }),
        ({
            let windows = usage_bytes(usage);
            &&& windows.len() == 32
            &&& windows[0] == 0xB1 && windows[1] == 0x01
            &&& usage.five_hour is Some ==> windows[2] == usage.five_hour->0
            &&& usage.five_hour is None ==> windows[2] == 0xFF
            &&& usage.seven_day is Some ==> windows[3] == usage.seven_day->0
            &&& usage.seven_day is None ==> windows[3] == 0xFF
            &&& forall|i: int| 4 <= i < 32 ==> windows[i] == 0
        }),
        ({
            let clock = clock_bytes(hour, minute);
            &&& clock.len() == 32
            &&& clock[0] == 0xAA && clock[1] == hour && clock[2] == minute
            &&& forall|i: int| 3 <= i < 32 ==> clock[i] == 0
        }),
        ({
            let layout = layout_bytes(code);
            &&& layout.len() == 32
            &&& layout[0] == 0xAC && layout[1] == code
            &&& forall|i: int| 2 <= i < 32 ==> layout[i] == 0
        }),
{
}

/// A report is the packet behind a zero.
pub proof fn law_a_report_carries_its_packet(payload: Seq<u8>)
    ensures
        report_of(payload).len() == payload.len() + 1,
        report_of(payload)[0] == 0,
        forall|i: int| 0 <= i < payload.len() ==> report_of(payload)[i + 1] == payload[i],
{
}

/// Opening, writing and letting go each change what they are about, and nothing
/// else: the counters only ever go up, by one for each.
pub proof fn law_the_node_is_kept_track_of(qube: QubeView, path: Seq<u8>)
    ensures
        qube.opened(path).path == Some(path),
        qube.opened(path).opens == qube.opens + 1,
        qube.opened(path).writes == qube.writes,
        qube.opened(path).pinned == qube.pinned,
        qube.wrote().path == qube.path,
        qube.wrote().writes == qube.writes + 1,
        qube.wrote().opens == qube.opens,
        qube.wrote().pinned == qube.pinned,
        qube.closed().path is None,
        qube.closed().writes == qube.writes,
        qube.closed().opens == qube.opens,
        qube.closed().pinned == qube.pinned,
{
}

/// An error of the device tells what was being done, and its cause word for word
/// and last.
pub proof fn law_a_device_error_tells_its_cause(path: FilePath, cause: String, node: Seq<char>)
    ensures
        QubeError::NoListing(cause).spelled(node) == "listing /sys/class/hidraw: "@ + cause@,
        QubeError::NotFound.spelled(node) == "no Ergohaven raw HID interface found"@,
        QubeError::CannotOpen(path, cause).spelled(node) == "opening "@ + node + (": "@ + cause@),
        QubeError::NotOpen.spelled(node) == "device is not open"@,
        QubeError::CannotWrite(cause).spelled(node) == "writing to the dongle: "@ + cause@,
{
    assert(QubeError::CannotOpen(path, cause).spelled(node) =~= "opening "@ + node + (": "@
        + cause@));
}

} // verus!
