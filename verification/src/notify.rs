//! systemd readiness and watchdog notifications.
//!
//! One datagram sent to a socket that systemd names in the environment. Outside
//! systemd there is nothing to send, so running the daemon by hand makes no
//! difference.
use crate::number::{decimal, law_decimal_reads_back, number_in, parse_number};
use crate::text::chars_of;
use vstd::prelude::*;

verus! {

/// Ping at half the interval systemd asks for: the customary safety margin, so
/// one missed round trip does not trip the watchdog.
pub const PING_DIVISOR: u128 = 2;

pub const NANOS_PER_MICRO: u128 = 1_000;

pub const READY: &'static str = "READY=1";

pub const WATCHDOG: &'static str = "WATCHDOG=1";

/// Where systemd listens.
#[derive(Debug, PartialEq, Eq)]
pub enum SocketName {
    /// A name in the abstract namespace, which is not a file system path.
    Abstract(String),
    Path(String),
}

/// Where systemd listens, without how it is stored.
pub enum SocketView {
    Abstract(Seq<char>),
    Path(Seq<char>),
}

impl View for SocketName {
    type V = SocketView;

    open spec fn view(&self) -> SocketView {
        match self {
            SocketName::Abstract(name) => SocketView::Abstract(name@),
            SocketName::Path(path) => SocketView::Path(path@),
        }
    }
}

/// The socket that a value of `NOTIFY_SOCKET` names. A leading `@` means the
/// abstract namespace.
pub open spec fn socket_in(value: Seq<char>) -> SocketView {
    if value.len() > 0 && value[0] == '@' {
        SocketView::Abstract(value.drop_first())
    } else {
        SocketView::Path(value)
    }
}

/// Whether the watchdog variables are meant for this process: `WATCHDOG_PID`
/// guards against inheriting them into a child that systemd is not watching.
/// Without a readable one they are.
pub open spec fn ours(watchdog_pid: Option<Seq<char>>, pid: u32) -> bool {
    match watchdog_pid {
        Some(text) => match number_in(text, 10, u32::MAX as int) {
            Some(watched) => watched == pid,
            None => true,
        },
        None => true,
    }
}

/// The nanoseconds between pings, if systemd asked this process to be kept
/// informed: its microseconds, divided by `PING_DIVISOR`.
pub open spec fn interval_in(
    watchdog_usec: Option<Seq<char>>,
    watchdog_pid: Option<Seq<char>>,
    pid: u32,
) -> Option<int> {
    match watchdog_usec {
        Some(text) => match number_in(text, 10, u64::MAX as int) {
            Some(usec) => if ours(watchdog_pid, pid) {
                Some(usec * NANOS_PER_MICRO / PING_DIVISOR as int)
            } else {
                None
            },
            None => None,
        },
        None => None,
    }
}

/// The view of an optional borrowed string.
pub open spec fn opt_str(text: Option<&str>) -> Option<Seq<char>> {
    match text {
        Some(text) => Some(text@),
        None => None,
    }
}

/// What is due to systemd. Times are nanoseconds on a monotonic clock.
#[derive(Debug, PartialEq, Eq)]
pub struct Notifier {
    pub socket: Option<SocketName>,
    /// Nothing when systemd did not ask to be kept informed.
    pub interval: Option<u128>,
    pub next_ping: Option<u128>,
}

/// What is due to systemd, without how it is stored.
pub struct NotifierView {
    pub socket: Option<SocketView>,
    pub interval: Option<int>,
    pub next_ping: Option<int>,
}

/// The view of an optional time.
pub open spec fn opt_time(time: Option<u128>) -> Option<int> {
    match time {
        Some(time) => Some(time as int),
        None => None,
    }
}

impl View for Notifier {
    type V = NotifierView;

    open spec fn view(&self) -> NotifierView {
        NotifierView {
            socket: match self.socket {
                Some(socket) => Some(socket@),
                None => None,
            },
            interval: opt_time(self.interval),
            next_ping: opt_time(self.next_ping),
        }
    }
}

impl NotifierView {
    /// Whether it is time for another ping.
    pub open spec fn due(self, now: int) -> bool {
        self.interval is Some && (self.next_ping matches Some(next) ==> now >= next)
    }

    /// What is due once somebody came by at `now`.
    pub open spec fn pinged(self, now: int) -> NotifierView {
        if self.due(now) {
            NotifierView { next_ping: Some(now + self.interval->0), ..self }
        } else {
            self
        }
    }
}

/// Finds the socket that a value names.
fn socket_named(value: &str) -> (socket: SocketName)
    ensures
        socket@ == socket_in(value@),
{
    let len: usize = value.unicode_len();
    if len > 0 && value.get_char(0) == '@' {
        let name = value.substring_char(1, len);
        assert(name@ =~= value@.drop_first());
        SocketName::Abstract(name.to_owned())
    } else {
        SocketName::Path(value.to_owned())
    }
}

/// Reads the process id that the watchdog variables are meant for.
fn is_ours(watchdog_pid: Option<&str>, pid: u32) -> (matching: bool)
    ensures
        matching == ours(opt_str(watchdog_pid), pid),
{
    match watchdog_pid {
        Some(text) => match parse_number(&chars_of(text), 10, u32::MAX as u64) {
            Some(watched) => watched == pid as u64,
            None => true,
        },
        None => true,
    }
}

impl Notifier {
    /// Takes in `NOTIFY_SOCKET`, `WATCHDOG_PID` and `WATCHDOG_USEC`, all set by
    /// systemd, as far as they are there and are text.
    pub fn from_env(
        notify_socket: Option<&str>,
        watchdog_pid: Option<&str>,
        watchdog_usec: Option<&str>,
        pid: u32,
    ) -> (notifier: Notifier)
        ensures
            notifier@ == (NotifierView {
                socket: match notify_socket {
                    Some(value) => Some(socket_in(value@)),
                    None => None,
                },
                interval: interval_in(opt_str(watchdog_usec), opt_str(watchdog_pid), pid),
                next_ping: None,
            }),
            notifier.interval matches Some(interval) ==> interval <= u64::MAX * NANOS_PER_MICRO,
    {
        let socket = match notify_socket {
            Some(value) => Some(socket_named(value)),
            None => None,
        };
        let interval = match watchdog_usec {
            Some(text) => match parse_number(&chars_of(text), 10, u64::MAX) {
                Some(usec) => if is_ours(watchdog_pid, pid) {
                    Some(usec as u128 * NANOS_PER_MICRO / PING_DIVISOR)
                } else {
                    None
                },
                None => None,
            },
            None => None,
        };
        Notifier { socket, interval, next_ping: None }
    }

    /// Announces startup. Sent before the dongle is even looked for: the daemon
    /// is ready to do its job whether or not the keyboard is plugged in, and
    /// withholding it would leave the unit stuck in `activating`.
    pub fn ready(&self) -> (message: Option<&'static str>)
        ensures
            match message {
                Some(message) => self@.socket is Some && message@ == READY@,
                None => self@.socket is None,
            },
    {
        self.send(READY)
    }

    /// Says we are still going round the loop.
    ///
    /// Rate-limited to the interval systemd asked for, so hot paths can call it
    /// without thinking. A wedged await is exactly what this is for, while a
    /// spinning loop pings very cheerfully: that one shows up in the periodic
    /// summary instead.
    pub fn ping(&mut self, now: u128) -> (message: Option<&'static str>)
        requires
            old(self).interval matches Some(interval) ==> now + interval <= u128::MAX,
        ensures
            final(self)@ == old(self)@.pinged(now as int),
            match message {
                Some(message) => old(self)@.due(now as int) && old(self)@.socket is Some
                    && message@ == WATCHDOG@,
                None => !(old(self)@.due(now as int) && old(self)@.socket is Some),
            },
    {
        let interval: u128 = match self.interval {
            Some(interval) => interval,
            None => {
                return None;
            },
        };
        if let Some(next) = self.next_ping {
            if now < next {
                return None;
            }
        }
        self.next_ping = Some(now + interval);
        self.send(WATCHDOG)
    }

    /// Hands a message on if there is somebody to send it to.
    fn send(&self, message: &'static str) -> (sent: Option<&'static str>)
        ensures
            sent == (if self@.socket is Some {
                Some(message)
            } else {
                None
            }),
    {
        if self.socket.is_some() {
            Some(message)
        } else {
            None
        }
    }
}

/// Pings come at half the interval that systemd asks for: two of ours fit into
/// one of its own.
pub proof fn law_two_pings_fit_into_the_watchdog_interval(
    watchdog_usec: Option<Seq<char>>,
    watchdog_pid: Option<Seq<char>>,
    pid: u32,
)
    ensures
        interval_in(watchdog_usec, watchdog_pid, pid) matches Some(interval) ==> (number_in(
            watchdog_usec->0,
            10,
            u64::MAX as int,
        ) matches Some(usec) && 2 * interval == usec * NANOS_PER_MICRO),
{
    if interval_in(watchdog_usec, watchdog_pid, pid) is Some {
        let usec = number_in(watchdog_usec->0, 10, u64::MAX as int)->0;
        let nanos = usec * NANOS_PER_MICRO;
        assert(nanos == 1000 * usec);
        assert(2 * (nanos / 2) == nanos);
    }
}

/// However often the loop comes by, two pings are at least an interval apart.
pub proof fn law_pings_are_an_interval_apart(notifier: NotifierView, now: int, later: int)
    requires
        now <= later,
        notifier.due(now),
        notifier.pinged(now).due(later),
    ensures
        later >= now + notifier.interval->0,
{
}

/// And none is held back for longer: an interval after a ping the next one is
/// due, however often the loop came by for nothing in between.
pub proof fn law_the_next_ping_comes_due(
    notifier: NotifierView,
    now: int,
    between: int,
    later: int,
)
    requires
        notifier.due(now),
        !notifier.pinged(now).due(between),
        later >= now + notifier.interval->0,
    ensures
        notifier.pinged(now).pinged(between).due(later),
{
}

/// A process that systemd is not watching never pings.
pub proof fn law_only_the_watched_process_pings(
    watchdog_usec: Option<Seq<char>>,
    watchdog_pid: Option<Seq<char>>,
    pid: u32,
    notifier: NotifierView,
    now: int,
)
    requires
        !ours(watchdog_pid, pid),
        notifier.interval == interval_in(watchdog_usec, watchdog_pid, pid),
    ensures
        !notifier.due(now),
{
}

/// A leading at sign means the abstract namespace and is no part of the name.
/// Everything else is a path as it stands.
pub proof fn law_an_at_sign_means_the_abstract_namespace(name: Seq<char>)
    ensures
        socket_in(seq!['@'] + name) == SocketView::Abstract(name),
        name.len() == 0 || name[0] != '@' ==> socket_in(name) == SocketView::Path(name),
{
    assert((seq!['@'] + name).drop_first() =~= name);
}

/// The watched process pings at half the microseconds that systemd asks for,
/// which is five hundred nanoseconds for each. It is watched where no readable
/// process id says otherwise. Without a readable interval nobody pings.
pub proof fn law_the_watched_process_pings_at_half_the_interval(
    usec: nat,
    watched: nat,
    pid: u32,
    other: Seq<char>,
)
    requires
        usec <= u64::MAX,
        watched <= u32::MAX,
        number_in(other, 10, u64::MAX as int) is None,
        number_in(other, 10, u32::MAX as int) is None,
    ensures
        interval_in(Some(decimal(usec)), None, pid) == Some((usec * 500) as int),
        interval_in(Some(decimal(usec)), Some(other), pid) == Some((usec * 500) as int),
        watched == pid ==> interval_in(Some(decimal(usec)), Some(decimal(watched)), pid) == Some(
            (usec * 500) as int,
        ),
        watched != pid ==> interval_in(Some(decimal(usec)), Some(decimal(watched)), pid) is None,
        interval_in(None, None, pid) is None,
        interval_in(None, Some(decimal(watched)), pid) is None,
        interval_in(Some(other), None, pid) is None,
        interval_in(Some(other), Some(decimal(watched)), pid) is None,
{
    law_decimal_reads_back(usec, u64::MAX as int);
    law_decimal_reads_back(watched, u32::MAX as int);
    assert(usec * NANOS_PER_MICRO == usec * 1000);
}

/// The first ping goes out at once, each one puts the next off by the interval
/// and changes nothing else, and whoever comes by too early changes nothing. Who
/// was not asked to ping never does.
pub proof fn law_a_ping_puts_the_next_one_off(notifier: NotifierView, now: int)
    ensures
        notifier.interval is None ==> !notifier.due(now),
        notifier.interval is Some && notifier.next_ping is None ==> notifier.due(now),
        notifier.interval is Some && notifier.next_ping is Some ==> (notifier.due(now) <==> now
            >= notifier.next_ping->0),
        !notifier.due(now) ==> notifier.pinged(now) == notifier,
        notifier.due(now) ==> {
            let after = notifier.pinged(now);
            &&& after.next_ping == Some(now + notifier.interval->0)
            &&& after.interval == notifier.interval
            &&& after.socket == notifier.socket
        },
{
}

} // verus!
