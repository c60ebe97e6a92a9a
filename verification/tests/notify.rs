use qubeherd::notify::{Notifier, SocketName};

const SECOND: u128 = 1_000_000_000;

#[test]
fn without_systemd_nothing_is_sent() {
    let mut notifier = Notifier::from_env(None, None, None, 7);
    assert_eq!(notifier.socket, None);
    assert_eq!(notifier.ready(), None);
    assert_eq!(notifier.ping(0), None);
}

#[test]
fn an_at_sign_names_an_abstract_socket() {
    let named = |value: &str| Notifier::from_env(Some(value), None, None, 7).socket;
    assert_eq!(named("@a/b"), Some(SocketName::Abstract("a/b".to_string())));
    assert_eq!(named("/run/notify"), Some(SocketName::Path("/run/notify".to_string())));
    assert_eq!(named("@"), Some(SocketName::Abstract(String::new())));
    assert_eq!(named("@@x"), Some(SocketName::Abstract("@x".to_string())));
}

#[test]
fn startup_is_announced() {
    let notifier = Notifier::from_env(Some("/run/notify"), None, None, 7);
    assert_eq!(notifier.ready(), Some("READY=1"));
}

#[test]
fn pings_come_twice_per_watchdog_interval() {
    let mut notifier = Notifier::from_env(Some("/run/notify"), Some("7"), Some("30000000"), 7);
    assert_eq!(notifier.interval, Some(15 * SECOND));
    assert_eq!(notifier.ping(SECOND), Some("WATCHDOG=1"));
    assert_eq!(notifier.ping(SECOND), None);
    assert_eq!(notifier.ping(16 * SECOND - 1), None);
    assert_eq!(notifier.ping(16 * SECOND), Some("WATCHDOG=1"));
    assert_eq!(notifier.next_ping, Some(31 * SECOND));
}

#[test]
fn only_the_watched_process_pings_the_watchdog() {
    let interval = |pid: Option<&str>, usec: Option<&str>| {
        Notifier::from_env(Some("/run/notify"), pid, usec, 7).interval
    };
    assert_eq!(interval(Some("8"), Some("30000000")), None);
    assert_eq!(interval(None, Some("30000000")), Some(15 * SECOND));
    assert_eq!(interval(Some("7"), Some("soon")), None);
    assert_eq!(interval(Some("7"), None), None);
    assert_eq!(interval(Some("7"), Some("1")), Some(500));
}
