use heartbeat_toggle::discovery::{service_listed, Discovery, DiscoveryAction, DiscoveryPhase};
use heartbeat_toggle::protocol::{ConnectionFault, OutOfTurn, DISCOVERY_INTERVAL_SECS};

fn names(list: &[&str]) -> Vec<String> {
    list.iter().map(|name| name.to_string()).collect()
}

#[test]
fn finds_a_listed_name() {
    let listing = names(&["org.freedesktop.DBus", ":1.7", "org.zbus.Test"]);
    assert!(service_listed(&listing, "org.zbus.Test"));
    assert!(service_listed(&listing, ":1.7"));
    assert!(service_listed(&listing, "org.freedesktop.DBus"));
}

#[test]
fn misses_an_unlisted_name() {
    let listing = names(&["org.freedesktop.DBus", ":1.7", "org.zbus.Test1", "org.zbus.Tes"]);
    assert!(!service_listed(&listing, "org.zbus.Test"));
    assert!(!service_listed(&Vec::new(), "org.zbus.Test"));
}

#[test]
fn polls_once_a_second() {
    assert_eq!(DISCOVERY_INTERVAL_SECS, 1);
    let mut discovery = Discovery::new("org.zbus.Test".to_string());
    assert_eq!(discovery.phase, DiscoveryPhase::Waiting);
    assert_eq!(discovery.look(), Ok(DiscoveryAction::ListNames));
    assert_eq!(discovery.phase, DiscoveryPhase::Listing);
    assert_eq!(discovery.listed(Ok(names(&["org.freedesktop.DBus"]))), Ok(DiscoveryAction::Sleep(1)));
    assert_eq!(discovery.phase, DiscoveryPhase::Waiting);
    assert_eq!(discovery.look(), Ok(DiscoveryAction::ListNames));
    assert_eq!(
        discovery.listed(Ok(names(&["org.freedesktop.DBus", "org.zbus.Test"]))),
        Ok(DiscoveryAction::Proceed)
    );
    assert_eq!(discovery.phase, DiscoveryPhase::Found);
    assert_eq!(discovery.target, "org.zbus.Test");
}

#[test]
fn proceeds_at_once_when_the_service_is_there() {
    let mut discovery = Discovery::new("org.zbus.Test".to_string());
    assert_eq!(discovery.look(), Ok(DiscoveryAction::ListNames));
    assert_eq!(discovery.listed(Ok(names(&["org.zbus.Test"]))), Ok(DiscoveryAction::Proceed));
}

#[test]
fn gives_up_when_the_registry_cannot_be_read() {
    let mut discovery = Discovery::new("org.zbus.Test".to_string());
    assert_eq!(discovery.look(), Ok(DiscoveryAction::ListNames));
    assert_eq!(discovery.listed(Err(ConnectionFault)), Ok(DiscoveryAction::Abort));
    assert_eq!(discovery.phase, DiscoveryPhase::Failed);
    assert_eq!(discovery.look(), Err(OutOfTurn));
    assert_eq!(discovery.phase, DiscoveryPhase::Failed);
}

#[test]
fn refuses_events_out_of_turn() {
    let mut discovery = Discovery::new("org.zbus.Test".to_string());
    assert_eq!(discovery.listed(Ok(names(&["org.zbus.Test"]))), Err(OutOfTurn));
    assert_eq!(discovery.phase, DiscoveryPhase::Waiting);
    assert_eq!(discovery.look(), Ok(DiscoveryAction::ListNames));
    assert_eq!(discovery.look(), Err(OutOfTurn));
    assert_eq!(discovery.phase, DiscoveryPhase::Listing);
    assert_eq!(discovery.listed(Ok(names(&["org.zbus.Test"]))), Ok(DiscoveryAction::Proceed));
    assert_eq!(discovery.look(), Err(OutOfTurn));
    assert_eq!(discovery.listed(Ok(names(&["org.zbus.Test"]))), Err(OutOfTurn));
    assert_eq!(discovery.phase, DiscoveryPhase::Found);
}

/// Runs a discovery against a registry that lists the service from the
/// second `delay` on, and returns the seconds slept.
fn seconds_until_found(delay: u64) -> u64 {
    let mut discovery = Discovery::new("org.zbus.Test".to_string());
    let mut clock = 0;
    loop {
        assert_eq!(discovery.look(), Ok(DiscoveryAction::ListNames));
        let listing = if clock >= delay {
            names(&["org.freedesktop.DBus", "org.zbus.Test"])
        } else {
            names(&["org.freedesktop.DBus"])
        };
        match discovery.listed(Ok(listing)).unwrap() {
            DiscoveryAction::Proceed => return clock,
            DiscoveryAction::Sleep(seconds) => clock += seconds,
            other => panic!("unexpected action {:?}", other),
        }
    }
}

#[test]
fn discovery_ends_when_the_service_registers() {
    for delay in [0, 1, 2, 3, 7, 60] {
        let slept = seconds_until_found(delay);
        assert!(slept >= delay);
        assert!(slept < delay + DISCOVERY_INTERVAL_SECS);
    }
    assert_eq!(seconds_until_found(3), 3);
}
