//! End-to-end scenarios: the manager and a session's synchronization task
//! driven together, with the protocol client's outcomes played in by hand.

use fest::commands::{FrontendCommand, MatrixCommand, RemoteEvent, UserSpecificCommand};
use fest::manager::{Action, Manager};
use fest::session::ConnectionMethod;
use fest::sync_task::{SyncInput, SyncTask, TerminationReason};

#[test]
fn guest_connect_then_two_polls_yields_one_event() {
    // Connect as a guest: a new session with identifier 0 is registered and
    // its synchronization task is to be spawned.
    let mut m = Manager::new();
    let actions = m.handle_command(MatrixCommand::Connect {
        homeserver_url: "https://example.org".to_string(),
        connection_method: ConnectionMethod::Guest,
    });
    assert_eq!(
        actions,
        vec![Action::SpawnSyncTask {
            user_id: 0,
            homeserver_url: "https://example.org".to_string(),
            connection_method: ConnectionMethod::Guest,
        }]
    );
    assert!(m.has_session(0));

    // The task authenticates (guest registration succeeds), then polls: the
    // first poll returns nothing and the cursor advances; the second poll
    // returns one message, which is forwarded — and nothing further comes
    // without another poll outcome.
    let mut t = SyncTask::new(ConnectionMethod::Guest);
    assert!(t.step(SyncInput::AuthSucceeded).is_empty());
    assert_eq!(t, SyncTask::Syncing { cursor: None });

    let events = t.step(SyncInput::SyncBatch { events: vec![], next_cursor: "T1".to_string() });
    assert!(events.is_empty());
    assert_eq!(t, SyncTask::Syncing { cursor: Some("T1".to_string()) });

    let events = t.step(SyncInput::SyncBatch {
        events: vec![RemoteEvent::RoomTextMessage {
            room_id: "!lobby:example.org".to_string(),
            sender_name: "alice".to_string(),
            message_content: "welcome".to_string(),
        }],
        next_cursor: "T2".to_string(),
    });
    assert_eq!(
        events,
        vec![FrontendCommand::DisplayTextMessage {
            room_id: "!lobby:example.org".to_string(),
            author_name: "alice".to_string(),
            message_content: "welcome".to_string(),
        }]
    );
    assert_eq!(t, SyncTask::Syncing { cursor: Some("T2".to_string()) });
}

#[test]
fn disconnect_right_after_connect_leaks_no_event() {
    let mut m = Manager::new();
    let _ = m.handle_command(MatrixCommand::Connect {
        homeserver_url: "https://example.org".to_string(),
        connection_method: ConnectionMethod::Guest,
    });
    let actions = m.handle_command(MatrixCommand::Disconnect(0));
    assert_eq!(actions, vec![Action::SendCancel { user_id: 0 }]);

    // The task observes the signal at its next suspension point — here
    // before its poll ever returns — and from then on forwards nothing,
    // even when a poll outcome still arrives afterwards.
    let mut t = SyncTask::new(ConnectionMethod::Guest);
    let _ = t.step(SyncInput::AuthSucceeded);
    assert!(t.step(SyncInput::Cancelled).is_empty());
    assert_eq!(t, SyncTask::Terminated { reason: TerminationReason::Cancelled });
    let late = t.step(SyncInput::SyncBatch {
        events: vec![RemoteEvent::RoomTextMessage {
            room_id: "!lobby:example.org".to_string(),
            sender_name: "alice".to_string(),
            message_content: "after the end".to_string(),
        }],
        next_cursor: "T1".to_string(),
    });
    assert!(late.is_empty());
}

#[test]
fn send_text_message_echoes_with_the_sessions_username() {
    let mut m = Manager::new();
    let _ = m.handle_command(MatrixCommand::Connect {
        homeserver_url: "https://example.org".to_string(),
        connection_method: ConnectionMethod::Login {
            username: "alice".to_string(),
            password: "pw".to_string(),
        },
    });
    let actions = m.handle_command(MatrixCommand::UserSpecificCommand {
        user_id: 0,
        command: UserSpecificCommand::SendTextMessage {
            room_id: "!lobby:example.org".to_string(),
            message_content: "hello".to_string(),
        },
    });
    assert_eq!(actions.len(), 1);
    let data = m.session_data(0).expect("session 0 must exist").clone();
    let echo = data
        .text_message_event("!lobby:example.org".to_string(), "hello".to_string())
        .expect("a session with a username can author the echo");
    assert_eq!(
        echo,
        FrontendCommand::DisplayTextMessage {
            room_id: "!lobby:example.org".to_string(),
            author_name: "alice".to_string(),
            message_content: "hello".to_string(),
        }
    );
}

#[test]
fn guest_session_cannot_author_a_message_echo() {
    let mut m = Manager::new();
    let _ = m.handle_command(MatrixCommand::Connect {
        homeserver_url: "https://example.org".to_string(),
        connection_method: ConnectionMethod::Guest,
    });
    let data = m.session_data(0).expect("session 0 must exist").clone();
    let echo = data.text_message_event("!lobby:example.org".to_string(), "hi".to_string());
    assert_eq!(echo, Err(()));
}
