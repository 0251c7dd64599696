use heartbeat_toggle::protocol::{
    toggle_operation, ConnectionFault, Operation, RemoteCallError, ACTIVE, IDLE,
};
use heartbeat_toggle::service::{PropertyChangeNotification, Test1};

#[test]
fn service_starts_idle() {
    let service = Test1::new();
    assert_eq!(service.state, "idle");
    assert_eq!(service.state(), "idle");
}

#[test]
fn state_names_are_active_and_idle() {
    assert_eq!(ACTIVE, "active");
    assert_eq!(IDLE, "idle");
    assert_eq!(Operation::Activate.target(), "active");
    assert_eq!(Operation::Deactivate.target(), "idle");
}

#[test]
fn activate_sets_active_and_notifies() {
    let mut service = Test1 { state: "idle".into() };
    let notification = service.activate();
    assert_eq!(service.state(), "active");
    assert_eq!(notification, PropertyChangeNotification { value: "active".to_string() });
}

#[test]
fn deactivate_sets_idle_and_notifies() {
    let mut service = Test1 { state: "active".into() };
    let notification = service.deactivate();
    assert_eq!(service.state(), "idle");
    assert_eq!(notification, PropertyChangeNotification { value: "idle".to_string() });
}

#[test]
fn activate_twice_notifies_twice() {
    let mut service = Test1::new();
    let mut notifications = Vec::new();
    notifications.push(service.activate());
    assert_eq!(service.state(), "active");
    notifications.push(service.activate());
    assert_eq!(service.state(), "active");
    assert_eq!(notifications.len(), 2);
    assert_eq!(notifications[0].value, "active");
    assert_eq!(notifications[1].value, "active");
}

#[test]
fn deactivate_twice_notifies_twice() {
    let mut service = Test1::new();
    let first = service.deactivate();
    let second = service.deactivate();
    assert_eq!(service.state(), "idle");
    assert_eq!(first.value, "idle");
    assert_eq!(second.value, "idle");
}

#[test]
fn operations_override_an_unknown_state() {
    let mut service = Test1 { state: "paused".into() };
    assert_eq!(service.state(), "paused");
    service.activate();
    assert_eq!(service.state, "active");
    let mut service = Test1 { state: String::new() };
    service.deactivate();
    assert_eq!(service.state, "idle");
}

#[test]
fn toggle_picks_the_opposite_operation() {
    assert_eq!(toggle_operation("active"), Operation::Deactivate);
    assert_eq!(toggle_operation("idle"), Operation::Activate);
}

#[test]
fn toggle_activates_on_unknown_states() {
    assert_eq!(toggle_operation(""), Operation::Activate);
    assert_eq!(toggle_operation("Active"), Operation::Activate);
    assert_eq!(toggle_operation("active "), Operation::Activate);
    assert_eq!(toggle_operation("activ"), Operation::Activate);
    assert_eq!(toggle_operation("paused"), Operation::Activate);
    assert_eq!(toggle_operation("äctive"), Operation::Activate);
}

#[test]
fn a_call_fails_only_if_its_notification_was_not_emitted() {
    assert_eq!(Test1::completed(Ok(())), Ok(()));
    assert_eq!(Test1::completed(Err(ConnectionFault)), Err(RemoteCallError));
}

#[test]
fn the_state_stands_when_the_notification_is_lost() {
    let mut service = Test1::new();
    let _lost = service.activate();
    assert_eq!(Test1::completed(Err(ConnectionFault)), Err(RemoteCallError));
    assert_eq!(service.state(), "active");
}
