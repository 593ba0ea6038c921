use pico_discover::fault::{panic_handler, Disposition, Failure};
use pico_discover::association::{AssociationManager, AssociationState, JoinAction};
use pico_discover::config::{ConnectionEndpoint, Ipv4Address, NetworkCredentials, StaticAddressConfig};
use pico_discover::connection::{ConnectionAction, ConnectionEvent, ConnectionManager, ConnectionState};
use pico_discover::discovery::{DiscoveryMessage, DiscoveryResponse};
use pico_discover::retry::{bump, RetryPolicy};

#[test]
fn join_gives_up_when_retries_are_spent() {
    let mut a = AssociationManager::new(RetryPolicy::at_most(1));
    assert_eq!(a.start(), JoinAction::Attempt);
    assert_eq!(a.on_join_result(false), JoinAction::Attempt);
    assert_eq!(a.on_join_result(false), JoinAction::GiveUp);
    assert_eq!(a.state, AssociationState::Abandoned);
    assert_eq!(a.failures, 2);
    assert_eq!(a.on_join_result(true), JoinAction::GiveUp);
    assert_ne!(a.state, AssociationState::Disconnected);
}

#[test]
fn unbounded_join_keeps_trying() {
    let mut a = AssociationManager::new(RetryPolicy::forever());
    a.start();
    for _ in 0..1000 {
        assert_eq!(a.on_join_result(false), JoinAction::Attempt);
        assert_eq!(a.state, AssociationState::Joining);
    }
    assert_eq!(a.failures, 1000);
    // Starting again while joining changes nothing.
    assert_eq!(a.start(), JoinAction::Attempt);
    assert_eq!(a.failures, 1000);
}

#[test]
fn connection_gives_up_per_stage() {
    let msg = DiscoveryMessage::new(b"ABCDEFGH").unwrap();
    let ep = ConnectionEndpoint::new(Ipv4Address::new(10, 0, 0, 1), 80);
    let mut m = ConnectionManager::new(ep, msg, RetryPolicy::at_most(0));
    m.next_action();
    m.on_event(ConnectionEvent::ConnectResult(false));
    assert_eq!(m.state(), ConnectionState::Abandoned);
    assert!(matches!(m.next_action(), ConnectionAction::GiveUp));
    m.on_event(ConnectionEvent::ConnectResult(true));
    assert_eq!(m.state(), ConnectionState::Abandoned);
}

#[test]
fn failure_counter_saturates() {
    assert_eq!(bump(0), 1);
    assert_eq!(bump(41), 42);
    assert_eq!(bump(u64::MAX), u64::MAX);
    assert!(RetryPolicy::forever().allows(u64::MAX));
    assert!(RetryPolicy::at_most(3).allows(3));
    assert!(!RetryPolicy::at_most(3).allows(4));
}

#[test]
fn message_must_be_eight_ascii_bytes() {
    assert_eq!(DiscoveryMessage::new(b"11OP63D3").unwrap().bytes, b"11OP63D3".to_vec());
    assert_eq!(DiscoveryMessage::new(b"11OP63D3").unwrap().request(), b"11OP63D3".to_vec());
    assert!(DiscoveryMessage::new(b"short").is_none());
    assert!(DiscoveryMessage::new(b"123456789").is_none());
    assert!(DiscoveryMessage::new(b"").is_none());
    assert!(DiscoveryMessage::new(&[b'1', b'2', b'3', b'4', b'5', b'6', b'7', 0xc3]).is_none());
}

#[test]
fn response_keeps_what_fits() {
    let mut r = DiscoveryResponse::with_capacity(4);
    assert_eq!(r.receive(b"abc"), 3);
    assert_eq!(r.data, b"abc".to_vec());
    assert_eq!(r.receive(b"abcd"), 4);
    assert_eq!(r.data, b"abcd".to_vec());
    assert_eq!(r.receive(b"abcdefgh"), 4);
    assert_eq!(r.data, b"abcd".to_vec());
    assert_eq!(r.capacity, 4);
    assert_eq!(r.receive(b""), 0);
    assert!(r.data.is_empty());
    let mut z = DiscoveryResponse::with_capacity(0);
    assert_eq!(z.receive(b"xyz"), 0);
}

#[test]
fn static_config_checks_prefix_and_name_servers() {
    let addr = Ipv4Address::new(192, 168, 1, 57);
    let gw = Some(Ipv4Address::new(192, 168, 1, 1));
    let c = StaticAddressConfig::new(addr, 24, gw, Vec::new()).unwrap();
    assert_eq!(c.address, addr);
    assert_eq!(c.prefix_len, 24);
    assert_eq!(c.gateway, gw);
    assert!(StaticAddressConfig::new(addr, 32, None, Vec::new()).is_some());
    assert!(StaticAddressConfig::new(addr, 33, gw, Vec::new()).is_none());
    let dns = vec![addr; 3];
    assert!(StaticAddressConfig::new(addr, 0, None, dns).is_some());
    let dns = vec![addr; 4];
    assert!(StaticAddressConfig::new(addr, 24, None, dns).is_none());
}

#[test]
fn credentials_are_kept_as_given() {
    let c = NetworkCredentials::new("Wyliodrin".to_string(), "SECRET-REDACTED".to_string());
    assert_eq!(c.network, "Wyliodrin");
    assert_eq!(c.secret, "SECRET-REDACTED");
    let e = ConnectionEndpoint::new(Ipv4Address::new(192, 168, 1, 199), 3000);
    assert_eq!(e.port, 3000);
    assert_eq!(e.address, Ipv4Address::new(192, 168, 1, 199));
}

#[test]
fn failures_are_sorted_by_severity() {
    assert_eq!(panic_handler(Failure::RadioInit), Disposition::Halt);
    assert_eq!(panic_handler(Failure::Panic), Disposition::Halt);
    assert_eq!(panic_handler(Failure::Join), Disposition::Retry);
    assert_eq!(panic_handler(Failure::Connect), Disposition::Retry);
    assert_eq!(panic_handler(Failure::Write), Disposition::Retry);
    assert_eq!(panic_handler(Failure::Read), Disposition::Retry);
    assert_eq!(panic_handler(Failure::Decode), Disposition::Report);
}
