use libvnc::client::{ClientAction, ClientEvent, ClientSession, WAIT_TIMEOUT_USEC};

fn started() -> ClientSession {
    let (mut session, action) = ClientSession::start();
    assert_eq!(action, ClientAction::InitClient);
    assert_eq!(session.step(ClientEvent::Initialized(1)), ClientAction::WaitForMessage(500));
    session
}

#[test]
fn session_starts_by_initialising_then_waits() {
    let (mut session, action) = ClientSession::start();
    assert_eq!(action, ClientAction::InitClient);
    assert!(!session.is_closed());
    assert_eq!(session.step(ClientEvent::Initialized(1)), ClientAction::WaitForMessage(500));
    assert_eq!(WAIT_TIMEOUT_USEC, 500);
    assert!(!session.is_closed());
}

#[test]
fn failed_initialisation_stops_without_cleanup() {
    let (mut session, _) = ClientSession::start();
    assert_eq!(session.step(ClientEvent::Initialized(0)), ClientAction::Stop);
    assert!(session.is_closed());
}

#[test]
fn any_nonzero_initialisation_result_succeeds() {
    let (mut session, _) = ClientSession::start();
    assert_eq!(session.step(ClientEvent::Initialized(-1)), ClientAction::WaitForMessage(500));
    assert!(!session.is_closed());
}

#[test]
fn no_message_waits_again() {
    let mut session = started();
    for _ in 0..3 {
        assert_eq!(session.step(ClientEvent::Waited(0)), ClientAction::WaitForMessage(500));
        assert!(!session.is_closed());
    }
}

#[test]
fn message_is_handled_then_waits() {
    let mut session = started();
    assert_eq!(session.step(ClientEvent::Waited(1)), ClientAction::HandleServerMessage);
    assert_eq!(session.step(ClientEvent::Handled(1)), ClientAction::WaitForMessage(500));
    assert_eq!(session.step(ClientEvent::Waited(42)), ClientAction::HandleServerMessage);
    assert_eq!(session.step(ClientEvent::Handled(-1)), ClientAction::WaitForMessage(500));
    assert!(!session.is_closed());
}

#[test]
fn failed_wait_cleans_up() {
    let mut session = started();
    assert_eq!(session.step(ClientEvent::Waited(-1)), ClientAction::Cleanup);
    assert!(session.is_closed());
}

#[test]
fn failed_handling_cleans_up() {
    let mut session = started();
    assert_eq!(session.step(ClientEvent::Waited(1)), ClientAction::HandleServerMessage);
    assert_eq!(session.step(ClientEvent::Handled(0)), ClientAction::Cleanup);
    assert!(session.is_closed());
}

#[test]
fn cleanup_comes_once_at_the_end() {
    let events = [
        ClientEvent::Initialized(1),
        ClientEvent::Waited(0),
        ClientEvent::Waited(2),
        ClientEvent::Handled(1),
        ClientEvent::Waited(0),
        ClientEvent::Waited(i32::MIN),
    ];
    let (mut session, _) = ClientSession::start();
    let mut actions = Vec::new();
    for e in events {
        actions.push(session.step(e));
    }
    let cleanups: Vec<usize> = actions
        .iter()
        .enumerate()
        .filter(|(_, a)| **a == ClientAction::Cleanup)
        .map(|(i, _)| i)
        .collect();
    assert_eq!(cleanups, vec![events.len() - 1]);
    assert!(session.is_closed());
}
