use lanchat::coordinator::{coordinate, CoordAction, CoordEvent};
use lanchat::discovery::{backoff_ms, discovery_step, pad_name, recv_deadline_ms};
use lanchat::discovery::{DiscoveryAction, DiscoveryEvent};
use lanchat::peer::{IpAddress, Peer};
use lanchat::registry::Registry;
use lanchat::session::{session_step, SessionAction, SessionEvent, SessionStatus};
use lanchat::{NAME_SIZE, REBROADCAST_MS};

fn name_buf(label: &str) -> Vec<u8> {
    let mut v = label.as_bytes().to_vec();
    while v.len() < NAME_SIZE {
        v.push(0);
    }
    v.truncate(NAME_SIZE);
    v
}

fn peer(a: u8, label: &str) -> Peer {
    Peer::new(IpAddress::V4(192, 168, 0, a), name_buf(label))
}

#[test]
fn session_relays_plain_text_verbatim() {
    let r = session_step(SessionEvent::Command(b"hello".to_vec()));
    assert_eq!(r.status, SessionStatus::Active);
    assert!(matches!(r.action, SessionAction::Send(out) if out == b"hello".to_vec()));
}

#[test]
fn session_relay_keeps_a_full_chunk_intact() {
    let payload: Vec<u8> = (0..=255).collect();
    let r = session_step(SessionEvent::Command(payload.clone()));
    assert_eq!(r.status, SessionStatus::Active);
    assert!(matches!(r.action, SessionAction::Send(out) if out == payload));
}

#[test]
fn exit_is_never_forwarded() {
    let r = session_step(SessionEvent::Command(b"exit".to_vec()));
    assert_eq!(r.status, SessionStatus::Closed);
    assert!(matches!(r.action, SessionAction::Pass));
}

#[test]
fn quit_with_whitespace_is_never_forwarded() {
    let r = session_step(SessionEvent::Command(b"  quit\n".to_vec()));
    assert_eq!(r.status, SessionStatus::Closed);
    assert!(matches!(r.action, SessionAction::Pass));
}

#[test]
fn zero_length_read_closes_without_error() {
    let r = session_step(SessionEvent::StreamData(Vec::new()));
    assert_eq!(r.status, SessionStatus::Closed);
    assert!(matches!(r.action, SessionAction::Pass));
}

#[test]
fn stream_bytes_are_displayed_verbatim() {
    let r = session_step(SessionEvent::StreamData(b"hi there".to_vec()));
    assert_eq!(r.status, SessionStatus::Active);
    assert!(matches!(r.action, SessionAction::Display(out) if out == b"hi there".to_vec()));
}

#[test]
fn write_failure_ends_the_session_as_an_error() {
    let r = session_step(SessionEvent::WriteFailed);
    assert_eq!(r.status, SessionStatus::Failed);
    assert!(matches!(r.action, SessionAction::Pass));
}

#[test]
fn idle_polls_keep_the_session_active() {
    let r = session_step(SessionEvent::Idle);
    assert_eq!(r.status, SessionStatus::Active);
    assert!(matches!(r.action, SessionAction::Pass));
}

#[test]
fn heard_beacon_lands_at_index_zero() {
    // Two nodes on one broadcast domain: each hears the other's beacon and
    // shows it at index 0.
    let bob = name_buf("Bob");
    let from = IpAddress::V4(192, 168, 0, 2);
    let action = discovery_step(DiscoveryEvent::Datagram(from, bob.clone()));
    let heard = match action {
        DiscoveryAction::Emit(p) => p,
        _ => panic!("a full-size beacon names a peer"),
    };
    let mut reg = Registry::new();
    let r = coordinate(&mut reg, CoordEvent::PeerFound(heard));
    assert_eq!(r, CoordAction::ShowPeerList);
    assert_eq!(reg.len(), 1);
    let p0 = reg.get_by_index(0).unwrap();
    assert!(*p0 == Peer::new(from, bob));
}

#[test]
fn short_or_long_beacons_are_dropped() {
    let from = IpAddress::V4(192, 168, 0, 2);
    let r = discovery_step(DiscoveryEvent::Datagram(from, b"Bob".to_vec()));
    assert!(matches!(r, DiscoveryAction::Skip));
    let long = vec![1u8; NAME_SIZE + 1];
    let r = discovery_step(DiscoveryEvent::Datagram(from, long));
    assert!(matches!(r, DiscoveryAction::Skip));
}

#[test]
fn timeout_asks_for_a_rebroadcast() {
    let r = discovery_step(DiscoveryEvent::TimedOut);
    assert!(matches!(r, DiscoveryAction::Rebroadcast));
}

#[test]
fn rebroadcast_deadline_carries_bounded_jitter() {
    assert_eq!(recv_deadline_ms(0), REBROADCAST_MS);
    assert_eq!(recv_deadline_ms(200), REBROADCAST_MS + 200);
    assert_eq!(recv_deadline_ms(201), REBROADCAST_MS);
    for seed in [3u64, 77, 1000, u64::MAX] {
        let d = recv_deadline_ms(seed);
        assert!(REBROADCAST_MS <= d && d <= REBROADCAST_MS + 200);
        assert!(backoff_ms(seed) < 100);
    }
}

#[test]
fn pad_name_zero_fills_and_truncates() {
    let padded = pad_name(&b"Alice".to_vec());
    assert_eq!(padded.len(), NAME_SIZE);
    assert_eq!(&padded[..5], b"Alice");
    assert!(padded[5..].iter().all(|b| *b == 0));
    let long = vec![9u8; NAME_SIZE + 10];
    let cut = pad_name(&long);
    assert_eq!(cut, vec![9u8; NAME_SIZE]);
}

#[test]
fn known_peer_is_reannounced_quietly() {
    let mut reg = Registry::new();
    assert_eq!(
        coordinate(&mut reg, CoordEvent::PeerFound(peer(2, "Bob"))),
        CoordAction::ShowPeerList
    );
    assert_eq!(
        coordinate(&mut reg, CoordEvent::PeerFound(peer(2, "Bob"))),
        CoordAction::Pass
    );
    assert_eq!(reg.len(), 1);
}

#[test]
fn valid_index_connects_to_that_peer() {
    let mut reg = Registry::new();
    reg.insert(peer(2, "Bob"));
    reg.insert(peer(3, "Carol"));
    let r = coordinate(&mut reg, CoordEvent::Input(b"0\n".to_vec()));
    assert_eq!(r, CoordAction::Connect(IpAddress::V4(192, 168, 0, 2)));
    let r = coordinate(&mut reg, CoordEvent::Input(b" 1 ".to_vec()));
    assert_eq!(r, CoordAction::Connect(IpAddress::V4(192, 168, 0, 3)));
}

#[test]
fn out_of_range_index_is_an_error_and_changes_nothing() {
    let mut reg = Registry::new();
    reg.insert(peer(2, "Bob"));
    reg.insert(peer(3, "Carol"));
    let r = coordinate(&mut reg, CoordEvent::Input(b"7\n".to_vec()));
    assert_eq!(r, CoordAction::ErrorNoSuchPeer(7));
    assert_eq!(reg.len(), 2);
    assert!(*reg.get_by_index(0).unwrap() == peer(2, "Bob"));
    assert!(*reg.get_by_index(1).unwrap() == peer(3, "Carol"));
}

#[test]
fn non_numeric_input_is_an_error_and_changes_nothing() {
    let mut reg = Registry::new();
    reg.insert(peer(2, "Bob"));
    let r = coordinate(&mut reg, CoordEvent::Input(b"xyz\n".to_vec()));
    assert_eq!(r, CoordAction::ErrorNotANumber);
    assert_eq!(reg.len(), 1);
    let r = coordinate(&mut reg, CoordEvent::Input(b"\n".to_vec()));
    assert_eq!(r, CoordAction::ErrorNotANumber);
    let r = coordinate(&mut reg, CoordEvent::Input(b"1.5".to_vec()));
    assert_eq!(r, CoordAction::ErrorNotANumber);
}

#[test]
fn quit_then_peer_closure_ends_both_sides() {
    // The operator types quit: this side closes and nothing reaches the wire;
    // the peer's next read is then zero bytes and its side closes too.
    let ours = session_step(SessionEvent::Command(b"quit\n".to_vec()));
    assert_eq!(ours.status, SessionStatus::Closed);
    assert!(matches!(ours.action, SessionAction::Pass));
    let theirs = session_step(SessionEvent::StreamData(Vec::new()));
    assert_eq!(theirs.status, SessionStatus::Closed);
    assert!(matches!(theirs.action, SessionAction::Pass));
}
