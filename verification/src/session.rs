//! Per-session data: identity, server, and cached profile metadata.

use vstd::prelude::*;
use crate::commands::{FrontendCommand, FrontendCommandV};

verus! {

/// Sessions are referred to by a numeric identifier assigned by the session
/// manager, a simple counter, so that no round trip to the server is needed
/// before a session can be addressed.
pub type InternalUserId = u32;

/// How a session authenticates to its server: with credentials, or as an
/// anonymous guest.
#[derive(Clone, Debug, PartialEq, Eq)]
pub enum ConnectionMethod {
    Login { username: String, password: String },
    Guest,
}

/// Ghost form of [`ConnectionMethod`], over character sequences.
#[verifier::ext_equal]
pub enum ConnectionMethodV {
    Login { username: Seq<char>, password: Seq<char> },
    Guest,
}

impl DeepView for ConnectionMethod {
    type V = ConnectionMethodV;

    open spec fn deep_view(&self) -> ConnectionMethodV {
        match self {
            ConnectionMethod::Login { username, password } => (ConnectionMethodV::Login {
                username: username.deep_view(),
                password: password.deep_view(),
            }),
            ConnectionMethod::Guest => ConnectionMethodV::Guest,
        }
    }
}

/// State of one account: the server it talks to and the identity it uses.
///
/// `homeserver` is the host part of the server address, when the address has
/// one. `username` is present exactly for sessions connected with
/// credentials; a guest session has none. `display_name` starts absent and is
/// a place for profile metadata fetched after connecting.
#[derive(Clone, Debug, PartialEq, Eq)]
pub struct UserData {
    pub homeserver: Option<String>,
    pub username: Option<String>,
    pub display_name: Option<String>,
}

/// Ghost form of [`UserData`], over character sequences.
#[verifier::ext_equal]
pub struct UserDataV {
    pub homeserver: Option<Seq<char>>,
    pub username: Option<Seq<char>>,
    pub display_name: Option<Seq<char>>,
}

impl DeepView for UserData {
    type V = UserDataV;

    open spec fn deep_view(&self) -> UserDataV {
        UserDataV {
            homeserver: self.homeserver.deep_view(),
            username: self.username.deep_view(),
            display_name: self.display_name.deep_view(),
        }
    }
}

impl UserData {
    /// The event echoing a just-sent text message back to the user interface,
    /// attributed to this session's username.
    ///
    /// Sending a message is only offered to sessions connected with
    /// credentials: a session without a username (a guest) cannot author one,
    /// and asking it to is the error the surrounding process reports.
    pub fn text_message_event(&self, room_id: String, message_content: String) -> (r: Result<
        FrontendCommand,
        (),
    >)
        ensures
            self.username is None <==> r is Err,
            self.username matches Some(author) ==> (r matches Ok(ev) && ev.deep_view()
                == (FrontendCommandV::DisplayTextMessage {
                room_id: room_id@,
                author_name: author@,
                message_content: message_content@,
            })),
    {
        match &self.username {
            Some(author) => Ok(
                FrontendCommand::DisplayTextMessage {
                    room_id,
                    author_name: author.clone(),
                    message_content,
                },
            ),
            None => Err(()),
        }
    }
}

} // verus!
