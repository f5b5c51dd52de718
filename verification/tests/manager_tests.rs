//! The session manager seen from outside: command handling, the registry,
//! and the work handed back for the surrounding process to perform.

use fest::commands::MatrixCommand;
use fest::commands::UserSpecificCommand;
use fest::manager::Action;
use fest::manager::Manager;
use fest::session::ConnectionMethod;

fn connect_guest(m: &mut Manager, url: &str) -> Vec<Action> {
    m.handle_command(MatrixCommand::Connect {
        homeserver_url: url.to_string(),
        connection_method: ConnectionMethod::Guest,
    })
}

#[test]
fn connect_ids_are_consecutive_from_zero() {
    let mut m = Manager::new();
    let mut spawned: Vec<u32> = Vec::new();
    // Interleave other command kinds between the connects: they must not
    // disturb the identifier sequence.
    for step in 0..3 {
        let actions = connect_guest(&mut m, "https://example.org");
        for a in actions {
            if let Action::SpawnSyncTask { user_id, .. } = a {
                spawned.push(user_id);
            }
        }
        let _ = m.handle_command(MatrixCommand::Disconnect(999));
        let _ = m.handle_command(MatrixCommand::UserSpecificCommand {
            user_id: 998,
            command: UserSpecificCommand::FetchDirectory,
        });
        assert_eq!(m.session_count(), step + 1);
    }
    assert_eq!(spawned, vec![0, 1, 2]);
    assert_eq!(m.next_session_id(), 3);
}

#[test]
fn disconnect_unknown_id_is_logged_and_changes_nothing() {
    let mut m = Manager::new();
    let _ = connect_guest(&mut m, "https://example.org");
    let before = m.session_count();
    let actions = m.handle_command(MatrixCommand::Disconnect(7));
    assert_eq!(actions, vec![Action::LogUnknownDisconnect { user_id: 7 }]);
    assert_eq!(m.session_count(), before);
    assert!(m.has_session(0));
}

#[test]
fn disconnect_removes_session_and_signals_cancellation() {
    let mut m = Manager::new();
    let _ = connect_guest(&mut m, "https://example.org");
    assert!(m.has_session(0));
    let actions = m.handle_command(MatrixCommand::Disconnect(0));
    assert_eq!(actions, vec![Action::SendCancel { user_id: 0 }]);
    assert!(!m.has_session(0));
    assert_eq!(m.session_count(), 0);
}

#[test]
fn session_command_for_unknown_id_is_logged() {
    let mut m = Manager::new();
    let actions = m.handle_command(MatrixCommand::UserSpecificCommand {
        user_id: 3,
        command: UserSpecificCommand::SendTextMessage {
            room_id: "!room:example.org".to_string(),
            message_content: "hi".to_string(),
        },
    });
    assert_eq!(actions, vec![Action::LogUnknownUserCommand { user_id: 3 }]);
    assert_eq!(m.session_count(), 0);
}

#[test]
fn session_command_spawns_independent_work() {
    let mut m = Manager::new();
    let _ = connect_guest(&mut m, "https://example.org");
    let actions = m.handle_command(MatrixCommand::UserSpecificCommand {
        user_id: 0,
        command: UserSpecificCommand::SendTextMessage {
            room_id: "!room:example.org".to_string(),
            message_content: "hello".to_string(),
        },
    });
    assert_eq!(
        actions,
        vec![Action::SpawnSendTextMessage {
            user_id: 0,
            room_id: "!room:example.org".to_string(),
            message_content: "hello".to_string(),
        }]
    );
    let actions = m.handle_command(MatrixCommand::UserSpecificCommand {
        user_id: 0,
        command: UserSpecificCommand::FetchDirectory,
    });
    assert_eq!(actions, vec![Action::SpawnFetchDirectory { user_id: 0 }]);
}

#[test]
fn quit_cancels_every_active_session_exactly_once() {
    let mut m = Manager::new();
    let _ = connect_guest(&mut m, "https://one.example.org");
    let _ = connect_guest(&mut m, "https://two.example.org");
    let actions = m.handle_command(MatrixCommand::Quit);
    assert_eq!(
        actions,
        vec![
            Action::SendCancel { user_id: 0 },
            Action::SendCancel { user_id: 1 },
            Action::Exit,
        ]
    );
    for id in [0u32, 1u32] {
        let sent = actions
            .iter()
            .filter(|a| **a == Action::SendCancel { user_id: id })
            .count();
        assert_eq!(sent, 1);
    }
    assert!(m.is_stopped());
    assert_eq!(m.session_count(), 0);
}

#[test]
fn second_quit_is_ignored_without_panicking() {
    let mut m = Manager::new();
    let _ = connect_guest(&mut m, "https://example.org");
    let first = m.handle_command(MatrixCommand::Quit);
    assert!(first.contains(&Action::Exit));
    let second = m.handle_command(MatrixCommand::Quit);
    assert_eq!(second, Vec::new());
    assert!(m.is_stopped());
    // Any other late input is ignored as well.
    let late = m.handle_command(MatrixCommand::Disconnect(0));
    assert_eq!(late, Vec::new());
}

#[test]
fn connect_records_login_username_and_host() {
    let mut m = Manager::new();
    let _ = m.handle_command(MatrixCommand::Connect {
        homeserver_url: "https://example.org/some/path".to_string(),
        connection_method: ConnectionMethod::Login {
            username: "alice".to_string(),
            password: "pw".to_string(),
        },
    });
    let data = m.session_data(0).expect("session 0 must exist");
    assert_eq!(data.username, Some("alice".to_string()));
    // The host is extracted from the address, not the address handed back.
    assert_eq!(data.homeserver, Some("example.org".to_string()));
    assert_eq!(data.display_name, None);
}

#[test]
fn connect_as_guest_has_no_username() {
    let mut m = Manager::new();
    let _ = connect_guest(&mut m, "https://example.org");
    let data = m.session_data(0).expect("session 0 must exist");
    assert_eq!(data.username, None);
}

#[test]
fn session_data_for_unknown_id_is_absent() {
    let m = Manager::new();
    assert!(m.session_data(4).is_none());
}
