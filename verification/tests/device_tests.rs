use lumicontrol::device::{
    DeviceError, DiscoveryPolicy, LineFramer, PortCandidate, PortKind, ReconnectBackoff,
    SequenceGap, SequenceTracker, SerialPortProvider, UsbId,
};
use lumicontrol::protocol::ProtocolError;
use std::time::Duration;

fn usb(name: &str, vid: u16, pid: u16) -> PortCandidate {
    PortCandidate {
        name: name.to_string(),
        kind: PortKind::Usb {
            id: UsbId { vid, pid },
            serial_number: None,
            manufacturer: None,
            product: None,
        },
    }
}

fn plain(name: &str) -> PortCandidate {
    PortCandidate { name: name.to_string(), kind: PortKind::Unknown }
}

#[test]
fn sequence_tracker_reports_gaps_and_accepts_wraparound() {
    let mut tracker = SequenceTracker::default();
    assert_eq!(tracker.observe(u32::MAX), None);
    assert_eq!(tracker.observe(0), None);
    assert_eq!(
        tracker.observe(2),
        Some(SequenceGap {
            expected: 1,
            received: 2
        })
    );
}

#[test]
fn reconnect_backoff_caps_and_resets() {
    let mut backoff = ReconnectBackoff::default();
    assert_eq!(backoff.next_delay(), Duration::from_millis(250).as_nanos());
    assert_eq!(backoff.next_delay(), Duration::from_millis(500).as_nanos());
    for _ in 0..10 {
        backoff.next_delay();
    }
    assert_eq!(backoff.next_delay(), Duration::from_secs(5).as_nanos());
    backoff.reset();
    assert_eq!(backoff.next_delay(), Duration::from_millis(250).as_nanos());
}

#[test]
fn backoff_starts_no_higher_than_its_cap() {
    let mut backoff = ReconnectBackoff::new(10_000, 3_000);
    assert_eq!(backoff.next_delay(), 3_000);
    assert_eq!(backoff.next_delay(), 3_000);
    let mut growing = ReconnectBackoff::new(1, 10);
    let delays: Vec<u128> = (0..6).map(|_| growing.next_delay()).collect();
    assert_eq!(delays, vec![1, 2, 4, 8, 10, 10]);
}

#[test]
fn line_framer_handles_fragmentation_and_multiple_frames() {
    let mut framer = LineFramer::new();
    framer.push(b"{\"a\":").unwrap();
    assert!(framer.take_frame().is_none());
    framer.push(b"1}\n{\"b\":2}\n").unwrap();
    assert_eq!(framer.take_frame().unwrap(), b"{\"a\":1}");
    assert_eq!(framer.take_frame().unwrap(), b"{\"b\":2}");
    assert!(framer.take_frame().is_none());
}

#[test]
fn line_framer_drops_trailing_whitespace_and_oversized_lines() {
    let mut framer = LineFramer::new();
    framer.push(b"abc \r\n").unwrap();
    assert_eq!(framer.take_frame().unwrap(), b"abc");
    let long = vec![b'x'; 1025];
    match framer.push(&long) {
        Err(DeviceError::Protocol(ProtocolError::FrameTooLarge { actual, maximum })) => {
            assert_eq!(actual, 1025);
            assert_eq!(maximum, 1024);
        }
        other => panic!("unexpected {other:?}"),
    }
    assert!(framer.take_frame().is_none());
    let mut with_newline = vec![b'y'; 1100];
    with_newline[3] = b'\n';
    framer.push(&with_newline).unwrap();
    assert_eq!(framer.take_frame().unwrap(), b"yyy");
}

#[test]
fn default_policy_probes_usb_ports_only() {
    let policy = DiscoveryPolicy::default();
    assert!(policy.accepts(&usb("COM4", 1, 2)));
    assert!(!policy.accepts(&plain("COM1")));
    let mut preferred = DiscoveryPolicy::default();
    preferred.preferred_port = Some("com1".to_string());
    assert!(preferred.accepts(&plain("COM1")));
    let mut listed = DiscoveryPolicy::default();
    listed.allowed_usb_ids = vec![UsbId { vid: 0x303a, pid: 0x1001 }];
    assert!(listed.accepts(&usb("COM5", 0x303a, 0x1001)));
    assert!(!listed.accepts(&usb("COM6", 0x1a86, 0x7523)));
}

#[test]
fn candidates_are_sorted_preferred_then_usb_then_name() {
    let mut policy = DiscoveryPolicy::default();
    policy.preferred_port = Some("COM9".to_string());
    let mut candidates = vec![plain("COM1"), usb("COM7", 1, 1), plain("com9"), usb("COM3", 1, 1)];
    policy.sort_candidates(&mut candidates);
    let names: Vec<&str> = candidates.iter().map(|c| c.name.as_str()).collect();
    assert_eq!(names, vec!["com9", "COM3", "COM7", "COM1"]);
}

#[test]
fn serial_provider_uses_the_device_speed() {
    assert_eq!(SerialPortProvider::default().baud_rate, 115_200);
}

#[test]
fn sorting_keeps_tied_candidates_in_their_order() {
    let policy = DiscoveryPolicy::default();
    let mut candidates = vec![
        plain("COM9"),
        usb("COM4", 0x303a, 0x1002),
        usb("COM4", 0x303a, 0x1001),
        usb("COM2", 0x1234, 0x0001),
    ];
    policy.sort_candidates(&mut candidates);
    let names: Vec<&str> = candidates.iter().map(|c| c.name.as_str()).collect();
    assert_eq!(names, vec!["COM2", "COM4", "COM4", "COM9"]);
    match (&candidates[1].kind, &candidates[2].kind) {
        (PortKind::Usb { id: first, .. }, PortKind::Usb { id: second, .. }) => {
            assert_eq!(first.pid, 0x1002);
            assert_eq!(second.pid, 0x1001);
        }
        _ => panic!("expected two USB ports"),
    }
}
