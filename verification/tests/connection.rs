use sound_pipewire::connection::{ends_session, Action, Connection, CoreEvent, Outcome};
use sound_pipewire::globals::NodeInfo;
use sound_pipewire::kind::DeviceKind;
use sound_pipewire::registry::Registry;

fn listed() -> Registry {
    let mut registry = Registry::new();
    registry.node_bound(&NodeInfo {
        id: 3,
        kind: DeviceKind::Sink,
        name: "speakers".to_string(),
        description: None,
    });
    registry
}

fn connect(connection: &mut Connection, registry: &mut Registry) {
    assert_eq!(connection.step(Outcome::Done, registry), Action::CreateMainLoop);
    assert_eq!(connection.step(Outcome::Done, registry), Action::CreateContext);
    assert_eq!(connection.step(Outcome::Done, registry), Action::Connect);
    assert_eq!(connection.step(Outcome::Done, registry), Action::Listen);
    assert_eq!(connection.tries(), 0);
    assert_eq!(connection.step(Outcome::Done, registry), Action::RunRound { ms: 50 });
}

#[test]
fn ten_short_delays_are_followed_by_long_ones() {
    let mut registry = Registry::new();
    let mut connection = Connection::new();
    for attempt in 1..=25 {
        assert_eq!(connection.step(Outcome::Done, &mut registry), Action::CreateMainLoop);
        assert_eq!(connection.tries(), attempt);
        for _ in 0..attempt % 3 {
            connection.step(Outcome::Done, &mut registry);
        }
        let ms = if attempt <= 10 { 100 } else { 5_000 };
        assert_eq!(connection.step(Outcome::Failed, &mut registry), Action::Sleep { ms });
    }
}

#[test]
fn a_connection_starts_with_nothing_known() {
    let mut registry = listed();
    let mut connection = Connection::new();
    connection.step(Outcome::Done, &mut registry);
    connection.step(Outcome::Done, &mut registry);
    connection.step(Outcome::Done, &mut registry);
    assert!(registry.device(3).is_some());
    assert_eq!(connection.step(Outcome::Done, &mut registry), Action::Listen);
    assert!(registry.device(3).is_none());
}

#[test]
fn a_failed_attempt_forgets_nothing() {
    let mut registry = listed();
    let mut connection = Connection::new();
    connection.step(Outcome::Done, &mut registry);
    connection.step(Outcome::Done, &mut registry);
    connection.step(Outcome::Done, &mut registry);
    assert_eq!(connection.step(Outcome::Failed, &mut registry), Action::Sleep { ms: 100 });
    assert!(registry.device(3).is_some());
}

#[test]
fn rounds_take_turns_with_requests() {
    let mut registry = Registry::new();
    let mut connection = Connection::new();
    connect(&mut connection, &mut registry);
    for _ in 0..3 {
        assert_eq!(connection.step(Outcome::Done, &mut registry), Action::HandleRequests);
        assert_eq!(connection.step(Outcome::Done, &mut registry), Action::RunRound { ms: 50 });
    }
}

#[test]
fn a_lost_connection_is_set_up_again_at_once() {
    let mut registry = Registry::new();
    let mut connection = Connection::new();
    for _ in 0..20 {
        connection.step(Outcome::Done, &mut registry);
        connection.step(Outcome::Failed, &mut registry);
    }
    connect(&mut connection, &mut registry);
    assert_eq!(connection.step(Outcome::Failed, &mut registry), Action::CreateMainLoop);
    assert_eq!(connection.tries(), 1);
    assert_eq!(connection.step(Outcome::Failed, &mut registry), Action::Sleep { ms: 100 });
}

#[test]
fn only_an_error_ends_a_session() {
    assert!(ends_session(CoreEvent::Error));
    assert!(!ends_session(CoreEvent::Done));
}
