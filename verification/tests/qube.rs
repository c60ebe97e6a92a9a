use qubeherd::herdr::AgentCounts;
use qubeherd::hidraw::{candidate, find_raw_hid_device, vendor_matches, Candidate, Search};
use qubeherd::path::FilePath;
use qubeherd::qube::{
    agents_packet, clock_packet, layout_packet, usage_packet, Opening, Qube, QubeError,
};
use qubeherd::usage::Usage;

fn packet(front: &[u8]) -> [u8; 32] {
    let mut payload = [0u8; 32];
    payload[..front.len()].copy_from_slice(front);
    payload
}

#[test]
fn packets_are_what_the_firmware_expects() {
    let counts = AgentCounts { working: 1, idle: 2, blocked: 3, done: 4, unknown: 255 };
    assert_eq!(agents_packet(&counts), packet(&[0xB0, 0x01, 1, 2, 3, 4, 255]));
    assert_eq!(clock_packet(23, 59), packet(&[0xAA, 23, 59]));
    assert_eq!(layout_packet(1), packet(&[0xAC, 1]));
    assert_eq!(layout_packet(0), packet(&[0xAC, 0]));
    let usage = Usage { five_hour: Some(78), seven_day: None, stale: true };
    assert_eq!(usage_packet(&usage), packet(&[0xB1, 0x01, 78, 0xFF]));
    let fresh = Usage { five_hour: None, seven_day: Some(0), stale: false };
    assert_eq!(usage_packet(&fresh), packet(&[0xB1, 0x01, 0xFF, 0]));
}

#[test]
fn a_report_leads_with_its_number() {
    let mut qube = Qube::new(None);
    assert_eq!(qube.write(&clock_packet(1, 2)), Err(QubeError::NotOpen));
    qube.opened(FilePath::of("/dev/hidraw5"));
    let report = qube.write(&clock_packet(1, 2)).expect("open");
    assert_eq!(report.len(), 33);
    assert_eq!(&report[..4], &[0, 0xAA, 1, 2]);
    assert_eq!(&report[4..], &[0u8; 29]);
}

#[test]
fn a_pinned_node_is_not_searched_for() {
    let mut qube = Qube::new(Some(FilePath::of("/dev/hidraw5")));
    assert_eq!(qube.ensure_open(), Opening::Open(FilePath::of("/dev/hidraw5")));
    qube.opened(FilePath::of("/dev/hidraw5"));
    assert_eq!(qube.ensure_open(), Opening::Ready);
    qube.close();
    assert_eq!(qube.ensure_open(), Opening::Open(FilePath::of("/dev/hidraw5")));
    assert_eq!(Qube::new(None).ensure_open(), Opening::Search);
}

#[test]
fn counters_count_what_reached_the_device() {
    let mut qube = Qube::new(None);
    qube.opened(FilePath::of("/dev/hidraw0"));
    assert_eq!(qube.wrote(Ok(())), Ok(()));
    assert_eq!(qube.wrote(Ok(())), Ok(()));
    assert_eq!(qube.counters(), (2, 1));
    assert_eq!(
        qube.wrote(Err("gone".to_string())),
        Err(QubeError::CannotWrite("gone".to_string()))
    );
    assert_eq!(qube.counters(), (2, 1));
    assert_eq!(qube.ensure_open(), Opening::Search);
}

const UEVENT: &str =
    "DRIVER=hid-generic\nHID_ID=0003:0000E126:00000074\nHID_NAME=Ergohaven Qube\nHID_UNIQ=\n";
const DESCRIPTOR: [u8; 7] = [0x06, 0x60, 0xFF, 0x09, 0x61, 0xA1, 0x01];

fn node(path: &str, number: u32) -> Candidate {
    Candidate { path: FilePath::of(path), number, name: "Ergohaven Qube".to_string() }
}

#[test]
fn the_vendor_is_the_second_part_of_the_id() {
    assert!(vendor_matches(UEVENT));
    assert!(vendor_matches("HID_ID=0003:e126:0"));
    assert!(vendor_matches("HID_ID=0003:+E126\r\n"));
    assert!(!vendor_matches("HID_ID=E126:0003:0000"));
    assert!(!vendor_matches("HID_ID=E126"));
    assert!(!vendor_matches("HID_ID=0003:1E126:0000"));
    assert!(!vendor_matches("HID_ID=0003: E126:0000"));
    assert!(!vendor_matches("XHID_ID=0003:E126:0000"));
    assert!(!vendor_matches(""));
    assert!(!vendor_matches("HID_ID=0:0:0\nHID_ID=0003:E126:0000"), "the first line counts");
}

#[test]
fn a_candidate_speaks_raw_hid() {
    let found = candidate(UEVENT, Some(DESCRIPTOR.to_vec()), Some("hidraw5"));
    assert_eq!(found, Some(node("/dev/hidraw5", 5)));
    assert_eq!(candidate(UEVENT, Some(DESCRIPTOR[..4].to_vec()), Some("hidraw5")), None);
    assert_eq!(candidate(UEVENT, Some(vec![0x05, 0x01, 0x09, 0x06, 0xA1]), Some("hidraw5")), None);
    assert_eq!(candidate(UEVENT, None, Some("hidraw5")), None);
    assert_eq!(candidate(UEVENT, Some(DESCRIPTOR.to_vec()), None), None);
    assert_eq!(candidate("HID_ID=3:1:2", Some(DESCRIPTOR.to_vec()), Some("hidraw5")), None);
}

#[test]
fn a_candidate_without_a_name_or_a_number_still_counts() {
    let found = candidate("HID_ID=3:E126:2", Some(DESCRIPTOR.to_vec()), Some("hidrawx"));
    let found = found.expect("a candidate");
    assert_eq!(found.number, u32::MAX);
    assert_eq!(found.name, "unnamed");
    assert_eq!(found.path, FilePath::of("/dev/hidrawx"));
}

#[test]
fn two_comes_before_ten() {
    let listed = vec![node("/dev/hidraw10", 10), node("/dev/hidraw2", 2)];
    assert_eq!(
        find_raw_hid_device(listed),
        Search {
            chosen: Some(node("/dev/hidraw2", 2)),
            ignored: vec![node("/dev/hidraw10", 10)],
        }
    );
    assert_eq!(find_raw_hid_device(vec![]), Search { chosen: None, ignored: vec![] });
}

#[test]
fn equal_numbers_keep_the_order_of_the_listing() {
    let listed = vec![
        node("/dev/x", u32::MAX),
        node("/dev/b", 7),
        node("/dev/y", u32::MAX),
        node("/dev/a", 7),
    ];
    let search = find_raw_hid_device(listed);
    assert_eq!(search.chosen, Some(node("/dev/b", 7)));
    assert_eq!(
        search.ignored,
        vec![node("/dev/a", 7), node("/dev/x", u32::MAX), node("/dev/y", u32::MAX)]
    );
}
