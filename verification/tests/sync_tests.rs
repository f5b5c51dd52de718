//! The synchronization task seen from outside: authentication, the poll
//! loop's event forwarding, failure, and cancellation.

use fest::commands::{FrontendCommand, RemoteEvent};
use fest::session::ConnectionMethod;
use fest::sync_task::{SyncInput, SyncTask, TerminationReason};

fn msg(room: &str, sender: &str, content: &str) -> RemoteEvent {
    RemoteEvent::RoomTextMessage {
        room_id: room.to_string(),
        sender_name: sender.to_string(),
        message_content: content.to_string(),
    }
}

fn shown(room: &str, author: &str, content: &str) -> FrontendCommand {
    FrontendCommand::DisplayTextMessage {
        room_id: room.to_string(),
        author_name: author.to_string(),
        message_content: content.to_string(),
    }
}

#[test]
fn events_keep_arrival_order_across_polls() {
    let mut t = SyncTask::new(ConnectionMethod::Guest);
    let events = t.step(SyncInput::AuthSucceeded);
    assert!(events.is_empty());

    let first = t.step(SyncInput::SyncBatch {
        events: vec![msg("!r:x", "alice", "A"), msg("!r:x", "bob", "B")],
        next_cursor: "c1".to_string(),
    });
    let second = t.step(SyncInput::SyncBatch {
        events: vec![msg("!r:x", "carol", "C")],
        next_cursor: "c2".to_string(),
    });
    let all: Vec<FrontendCommand> = first.into_iter().chain(second.into_iter()).collect();
    assert_eq!(
        all,
        vec![
            shown("!r:x", "alice", "A"),
            shown("!r:x", "bob", "B"),
            shown("!r:x", "carol", "C"),
        ]
    );
    assert_eq!(t, SyncTask::Syncing { cursor: Some("c2".to_string()) });
}

#[test]
fn unsupported_events_are_forwarded_nowhere() {
    let mut t = SyncTask::new(ConnectionMethod::Guest);
    let _ = t.step(SyncInput::AuthSucceeded);
    let events = t.step(SyncInput::SyncBatch {
        events: vec![RemoteEvent::Unsupported, msg("!r:x", "alice", "A"), RemoteEvent::Unsupported],
        next_cursor: "c1".to_string(),
    });
    assert_eq!(events, vec![shown("!r:x", "alice", "A")]);
}

#[test]
fn no_events_leak_after_cancellation() {
    let mut t = SyncTask::new(ConnectionMethod::Guest);
    let _ = t.step(SyncInput::AuthSucceeded);
    let events = t.step(SyncInput::Cancelled);
    assert!(events.is_empty());
    assert_eq!(t, SyncTask::Terminated { reason: TerminationReason::Cancelled });
    // A poll outcome that was already under way when the signal arrived
    // must not produce anything once the task has observed the signal.
    let late = t.step(SyncInput::SyncBatch {
        events: vec![msg("!r:x", "alice", "too late")],
        next_cursor: "c9".to_string(),
    });
    assert!(late.is_empty());
    assert_eq!(t, SyncTask::Terminated { reason: TerminationReason::Cancelled });
}

#[test]
fn cancellation_before_authentication_stops_the_task() {
    let mut t = SyncTask::new(ConnectionMethod::Login {
        username: "alice".to_string(),
        password: "pw".to_string(),
    });
    let events = t.step(SyncInput::Cancelled);
    assert!(events.is_empty());
    assert_eq!(t, SyncTask::Terminated { reason: TerminationReason::Cancelled });
}

#[test]
fn authentication_failure_is_fatal_to_the_task_only() {
    let mut t = SyncTask::new(ConnectionMethod::Login {
        username: "alice".to_string(),
        password: "pw".to_string(),
    });
    let events = t.step(SyncInput::AuthFailed);
    assert!(events.is_empty());
    assert_eq!(t, SyncTask::Terminated { reason: TerminationReason::AuthFailure });
}

#[test]
fn poll_failure_terminates_without_retry() {
    let mut t = SyncTask::new(ConnectionMethod::Guest);
    let _ = t.step(SyncInput::AuthSucceeded);
    let _ = t.step(SyncInput::SyncBatch { events: vec![], next_cursor: "c1".to_string() });
    let events = t.step(SyncInput::SyncFailed);
    assert!(events.is_empty());
    assert_eq!(t, SyncTask::Terminated { reason: TerminationReason::SyncFailure });
}

#[test]
fn synchronization_starts_without_a_cursor() {
    let t = SyncTask::new(ConnectionMethod::Guest);
    assert_eq!(t, SyncTask::Authenticating { connection_method: ConnectionMethod::Guest });
    let mut t = t;
    let _ = t.step(SyncInput::AuthSucceeded);
    assert_eq!(t, SyncTask::Syncing { cursor: None });
}
