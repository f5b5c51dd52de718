//! The message types crossing the boundary between the user-interface thread
//! and the session manager, and the events a synchronization task forwards.

use vstd::prelude::*;
use crate::session::{ConnectionMethod, ConnectionMethodV, InternalUserId};

verus! {

/// A command from the user-interface thread to the session manager.
///
/// Commands are processed strictly in arrival order by a single consumer.
#[derive(Clone, Debug, PartialEq, Eq)]
pub enum MatrixCommand {
    /// Open a new, independent session to the server at `homeserver_url`.
    /// No duplicate detection: every connect creates a fresh session.
    Connect { homeserver_url: String, connection_method: ConnectionMethod },
    /// Tear a session down. This is not a `UserSpecificCommand` because it
    /// deletes the session's data rather than just acting through it.
    Disconnect(InternalUserId),
    /// Run `command` through the session's protocol client.
    UserSpecificCommand { user_id: InternalUserId, command: UserSpecificCommand },
    /// Leave the command loop. The explicit variant is the one authoritative
    /// shutdown signal; closing the inbound channel is not relied on.
    Quit,
}

/// An operation carried out with one session's protocol client.
#[derive(Clone, Debug, PartialEq, Eq)]
pub enum UserSpecificCommand {
    FetchDirectory,
    SendTextMessage { room_id: String, message_content: String },
}

/// An event from the session manager or a synchronization task to the
/// user-interface thread, consumed on its poll tick.
#[derive(Clone, Debug, PartialEq, Eq)]
pub enum FrontendCommand {
    DisplayTextMessage { room_id: String, author_name: String, message_content: String },
}

/// One event as the server reports it from a synchronization call, reduced to
/// the parts the core reads.
#[derive(Clone, Debug, PartialEq, Eq)]
pub enum RemoteEvent {
    /// A text message posted to a room.
    RoomTextMessage { room_id: String, sender_name: String, message_content: String },
    /// Anything else the server may send; forwarded nowhere.
    Unsupported,
}

/// Ghost form of [`UserSpecificCommand`].
#[verifier::ext_equal]
pub enum UserSpecificCommandV {
    FetchDirectory,
    SendTextMessage { room_id: Seq<char>, message_content: Seq<char> },
}

impl DeepView for UserSpecificCommand {
    type V = UserSpecificCommandV;

    open spec fn deep_view(&self) -> UserSpecificCommandV {
        match self {
            UserSpecificCommand::FetchDirectory => UserSpecificCommandV::FetchDirectory,
            UserSpecificCommand::SendTextMessage { room_id, message_content } => (
            UserSpecificCommandV::SendTextMessage {
                room_id: room_id.deep_view(),
                message_content: message_content.deep_view(),
            }),
        }
    }
}

/// Ghost form of [`MatrixCommand`].
#[verifier::ext_equal]
pub enum MatrixCommandV {
    Connect { homeserver_url: Seq<char>, connection_method: ConnectionMethodV },
    Disconnect(int),
    UserSpecificCommand { user_id: int, command: UserSpecificCommandV },
    Quit,
}

impl DeepView for MatrixCommand {
    type V = MatrixCommandV;

    open spec fn deep_view(&self) -> MatrixCommandV {
        match self {
            MatrixCommand::Connect { homeserver_url, connection_method } => (MatrixCommandV::Connect {
                homeserver_url: homeserver_url.deep_view(),
                connection_method: connection_method.deep_view(),
            }),
            MatrixCommand::Disconnect(user_id) => MatrixCommandV::Disconnect(*user_id as int),
            MatrixCommand::UserSpecificCommand { user_id, command } => (
            MatrixCommandV::UserSpecificCommand {
                user_id: *user_id as int,
                command: command.deep_view(),
            }),
            MatrixCommand::Quit => MatrixCommandV::Quit,
        }
    }
}

/// Ghost form of [`FrontendCommand`].
#[verifier::ext_equal]
pub enum FrontendCommandV {
    DisplayTextMessage { room_id: Seq<char>, author_name: Seq<char>, message_content: Seq<char> },
}

impl DeepView for FrontendCommand {
    type V = FrontendCommandV;

    open spec fn deep_view(&self) -> FrontendCommandV {
        match self {
            FrontendCommand::DisplayTextMessage { room_id, author_name, message_content } => (
            FrontendCommandV::DisplayTextMessage {
                room_id: room_id.deep_view(),
                author_name: author_name.deep_view(),
                message_content: message_content.deep_view(),
            }),
        }
    }
}

/// Ghost form of [`RemoteEvent`].
#[verifier::ext_equal]
pub enum RemoteEventV {
    RoomTextMessage { room_id: Seq<char>, sender_name: Seq<char>, message_content: Seq<char> },
    Unsupported,
}

impl DeepView for RemoteEvent {
    type V = RemoteEventV;

    open spec fn deep_view(&self) -> RemoteEventV {
        match self {
            RemoteEvent::RoomTextMessage { room_id, sender_name, message_content } => (
            RemoteEventV::RoomTextMessage {
                room_id: room_id.deep_view(),
                sender_name: sender_name.deep_view(),
                message_content: message_content.deep_view(),
            }),
            RemoteEvent::Unsupported => RemoteEventV::Unsupported,
        }
    }
}

} // verus!
