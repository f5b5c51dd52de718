//! The session manager: the single authoritative owner of the session
//! registry and the sole consumer of the inbound command channel.
//!
//! One command is applied per step, strictly in arrival order; the registry
//! mutation of a step is atomic with respect to the next command. Each step
//! also returns the outside work the command gives rise to — spawning a
//! synchronization task, signalling a cancellation handle, starting a unit
//! of per-session work — which the surrounding process performs.

use vstd::prelude::*;
use crate::commands::{MatrixCommand, MatrixCommandV, UserSpecificCommand, UserSpecificCommandV};
use crate::host::{host_of, host_of_address};
use crate::session::{ConnectionMethod, ConnectionMethodV, InternalUserId, UserData, UserDataV};

verus! {

/// One registry entry: a session under its identifier. For every entry the
/// surrounding process keeps exactly one synchronization task and that
/// task's cancellation handle under the same identifier.
#[derive(Clone, Debug, PartialEq, Eq)]
pub struct RegistryEntry {
    pub user_id: InternalUserId,
    pub data: UserData,
}

/// Ghost form of [`RegistryEntry`].
#[verifier::ext_equal]
pub struct RegistryEntryV {
    pub user_id: int,
    pub data: UserDataV,
}

impl DeepView for RegistryEntry {
    type V = RegistryEntryV;

    open spec fn deep_view(&self) -> RegistryEntryV {
        RegistryEntryV { user_id: self.user_id as int, data: self.data.deep_view() }
    }
}

/// Outside work that applying one command gives rise to. The surrounding
/// process performs each action, in order, before applying the next command.
#[derive(Clone, Debug, PartialEq, Eq)]
pub enum Action {
    /// Spawn the synchronization task for the newly created session
    /// `user_id`, bound to a fresh cancellation handle kept under the same
    /// identifier.
    SpawnSyncTask {
        user_id: InternalUserId,
        homeserver_url: String,
        connection_method: ConnectionMethod,
    },
    /// Signal the cancellation handle kept under `user_id`. Signalling an
    /// already-stopped task must be treated as harmless by the performer.
    SendCancel { user_id: InternalUserId },
    /// Start the directory fetch as an independent unit of work.
    SpawnFetchDirectory { user_id: InternalUserId },
    /// Send a text message as an independent unit of work.
    SpawnSendTextMessage { user_id: InternalUserId, room_id: String, message_content: String },
    /// Report a disconnect for an identifier that is not registered.
    /// Non-fatal: the registry is left unchanged.
    LogUnknownDisconnect { user_id: InternalUserId },
    /// Report a per-session command for an identifier that is not
    /// registered. Non-fatal: the registry is left unchanged.
    LogUnknownUserCommand { user_id: InternalUserId },
    /// Leave the command loop; no further commands are applied.
    Exit,
}

/// Ghost form of [`Action`].
#[verifier::ext_equal]
pub enum ActionV {
    SpawnSyncTask { user_id: int, homeserver_url: Seq<char>, connection_method: ConnectionMethodV },
    SendCancel { user_id: int },
    SpawnFetchDirectory { user_id: int },
    SpawnSendTextMessage { user_id: int, room_id: Seq<char>, message_content: Seq<char> },
    LogUnknownDisconnect { user_id: int },
    LogUnknownUserCommand { user_id: int },
    Exit,
}

impl DeepView for Action {
    type V = ActionV;

    open spec fn deep_view(&self) -> ActionV {
        match self {
            Action::SpawnSyncTask { user_id, homeserver_url, connection_method } => (
            ActionV::SpawnSyncTask {
                user_id: *user_id as int,
                homeserver_url: homeserver_url.deep_view(),
                connection_method: connection_method.deep_view(),
            }),
            Action::SendCancel { user_id } => (ActionV::SendCancel { user_id: *user_id as int }),
            Action::SpawnFetchDirectory { user_id } => (ActionV::SpawnFetchDirectory {
                user_id: *user_id as int,
            }),
            Action::SpawnSendTextMessage { user_id, room_id, message_content } => (
            ActionV::SpawnSendTextMessage {
                user_id: *user_id as int,
                room_id: room_id.deep_view(),
                message_content: message_content.deep_view(),
            }),
            Action::LogUnknownDisconnect { user_id } => (ActionV::LogUnknownDisconnect {
                user_id: *user_id as int,
            }),
            Action::LogUnknownUserCommand { user_id } => (ActionV::LogUnknownUserCommand {
                user_id: *user_id as int,
            }),
            Action::Exit => ActionV::Exit,
        }
    }
}

/// Whether some entry of `r` carries the identifier `user_id`.
pub open spec fn has_id(r: Seq<RegistryEntryV>, user_id: int) -> bool {
    exists|i: int| 0 <= i < r.len() && (#[trigger] r[i]).user_id == user_id
}

/// `r` without its first entry carrying `user_id` (without change when none
/// does).
pub open spec fn remove_id(r: Seq<RegistryEntryV>, user_id: int) -> Seq<RegistryEntryV>
    decreases r.len(),
{
    if r.len() == 0 {
        r
    } else if r[0].user_id == user_id {
        r.drop_first()
    } else {
        seq![r[0]] + remove_id(r.drop_first(), user_id)
    }
}

/// The session data of the first entry of `r` carrying `user_id`, if any.
pub open spec fn lookup_id(r: Seq<RegistryEntryV>, user_id: int) -> Option<UserDataV>
    decreases r.len(),
{
    if r.len() == 0 {
        None
    } else if r[0].user_id == user_id {
        Some(r[0].data)
    } else {
        lookup_id(r.drop_first(), user_id)
    }
}

/// One cancellation signal per entry of `r`, in registry order.
pub open spec fn cancel_all(r: Seq<RegistryEntryV>) -> Seq<ActionV> {
    r.map_values(|e: RegistryEntryV| ActionV::SendCancel { user_id: e.user_id })
}

/// Ghost form of [`Manager`]: the registry, the identifier counter, and
/// whether the command loop has been left.
#[verifier::ext_equal]
pub struct ManagerV {
    pub registry: Seq<RegistryEntryV>,
    pub next_user_id: int,
    pub stopped: bool,
}

/// The manager a process starts with: empty registry, identifiers from 0.
pub open spec fn initial_manager() -> ManagerV {
    ManagerV { registry: Seq::empty(), next_user_id: 0, stopped: false }
}

/// The registry invariant: identifiers strictly increase along the registry
/// — so each is carried by at most one entry — and all lie below the
/// counter, so a fresh identifier is never a reused one.
pub open spec fn manager_wf(m: ManagerV) -> bool {
    &&& 0 <= m.next_user_id
    &&& forall|i: int|
        0 <= i < m.registry.len() ==> 0 <= (#[trigger] m.registry[i]).user_id < m.next_user_id
    &&& forall|i: int, j: int|
        #![trigger m.registry[i], m.registry[j]]
        0 <= i < j < m.registry.len() ==> m.registry[i].user_id < m.registry[j].user_id
}

/// One step of the session manager: the registry after applying `cmd`, and
/// the outside work `cmd` gives rise to.
///
/// A connect always creates a fresh, independent session — there is no
/// duplicate detection — whose username is the login name, or absent for a
/// guest, and whose homeserver is the host part of the address. A
/// disconnect or per-session command for an unknown identifier is reported
/// and changes nothing. Quit empties the registry, signalling every
/// registered session's cancellation handle exactly once, and stops the
/// loop: a stopped manager ignores every further command.
pub open spec fn manager_step(m: ManagerV, cmd: MatrixCommandV) -> (ManagerV, Seq<ActionV>) {
    if m.stopped {
        (m, Seq::empty())
    } else {
        match cmd {
            MatrixCommandV::Connect { homeserver_url, connection_method } => (
                ManagerV {
                    registry: m.registry.push(
                        RegistryEntryV {
                            user_id: m.next_user_id,
                            data: UserDataV {
                                homeserver: host_of(homeserver_url),
                                username: match connection_method {
                                    ConnectionMethodV::Login { username, .. } => Some(username),
                                    ConnectionMethodV::Guest => None,
                                },
                                display_name: None,
                            },
                        },
                    ),
                    next_user_id: m.next_user_id + 1,
                    stopped: false,
                },
                seq![
                    ActionV::SpawnSyncTask {
                        user_id: m.next_user_id,
                        homeserver_url: homeserver_url,
                        connection_method: connection_method,
                    },
                ],
            ),
            MatrixCommandV::Disconnect(user_id) => if has_id(m.registry, user_id) {
                (
                    ManagerV {
                        registry: remove_id(m.registry, user_id),
                        next_user_id: m.next_user_id,
                        stopped: false,
                    },
                    seq![ActionV::SendCancel { user_id: user_id }],
                )
            } else {
                (m, seq![ActionV::LogUnknownDisconnect { user_id: user_id }])
            },
            MatrixCommandV::UserSpecificCommand { user_id, command } => if has_id(
                m.registry,
                user_id,
            ) {
                (
                    m,
                    seq![
                        match command {
                            UserSpecificCommandV::FetchDirectory => (ActionV::SpawnFetchDirectory {
                                user_id: user_id,
                            }),
                            UserSpecificCommandV::SendTextMessage { room_id, message_content } => (
                            ActionV::SpawnSendTextMessage {
                                user_id: user_id,
                                room_id: room_id,
                                message_content: message_content,
                            }),
                        },
                    ],
                )
            } else {
                (m, seq![ActionV::LogUnknownUserCommand { user_id: user_id }])
            },
            MatrixCommandV::Quit => (
                ManagerV { registry: Seq::empty(), next_user_id: m.next_user_id, stopped: true },
                cancel_all(m.registry).push(ActionV::Exit),
            ),
        }
    }
}

/// `remove_id` removes exactly the first entry carrying the identifier.
proof fn lemma_remove_id_first(r: Seq<RegistryEntryV>, user_id: int, i: int)
    requires
        0 <= i < r.len(),
        r[i].user_id == user_id,
        forall|j: int| 0 <= j < i ==> (#[trigger] r[j]).user_id != user_id,
    ensures
        remove_id(r, user_id) == r.remove(i),
    decreases i,
{
    if i == 0 {
        assert(remove_id(r, user_id) =~= r.remove(0));
    } else {
        assert(r[0].user_id != user_id);
        lemma_remove_id_first(r.drop_first(), user_id, i - 1);
        assert(r.remove(i) =~= seq![r[0]] + r.drop_first().remove(i - 1));
    }
}

/// `lookup_id` finds exactly the first entry carrying the identifier.
proof fn lemma_lookup_id_first(r: Seq<RegistryEntryV>, user_id: int, i: int)
    requires
        0 <= i < r.len(),
        r[i].user_id == user_id,
        forall|j: int| 0 <= j < i ==> (#[trigger] r[j]).user_id != user_id,
    ensures
        lookup_id(r, user_id) == Some(r[i].data),
    decreases i,
{
    if i == 0 {
    } else {
        assert(r[0].user_id != user_id);
        lemma_lookup_id_first(r.drop_first(), user_id, i - 1);
    }
}

/// When no entry carries the identifier, there is nothing to look up.
proof fn lemma_lookup_id_none(r: Seq<RegistryEntryV>, user_id: int)
    requires
        forall|j: int| 0 <= j < r.len() ==> (#[trigger] r[j]).user_id != user_id,
    ensures
        lookup_id(r, user_id) is None,
    decreases r.len(),
{
    if r.len() == 0 {
    } else {
        lemma_lookup_id_none(r.drop_first(), user_id);
    }
}

/// The index of the first entry of `r` carrying `user_id`, meaningful when
/// one does.
spec fn first_index_of(r: Seq<RegistryEntryV>, user_id: int) -> int
    decreases r.len(),
{
    if r.len() == 0 {
        0
    } else if r[0].user_id == user_id {
        0
    } else {
        1 + first_index_of(r.drop_first(), user_id)
    }
}

proof fn lemma_first_index_of(r: Seq<RegistryEntryV>, user_id: int)
    requires
        has_id(r, user_id),
    ensures
        0 <= first_index_of(r, user_id) < r.len(),
        r[first_index_of(r, user_id)].user_id == user_id,
        forall|j: int|
            0 <= j < first_index_of(r, user_id) ==> (#[trigger] r[j]).user_id != user_id,
    decreases r.len(),
{
    if r[0].user_id == user_id {
    } else {
        let w = choose|i: int| 0 <= i < r.len() && (#[trigger] r[i]).user_id == user_id;
        assert(w != 0);
        assert(r.drop_first()[w - 1] == r[w]);
        assert(has_id(r.drop_first(), user_id));
        lemma_first_index_of(r.drop_first(), user_id);
        assert(r[first_index_of(r, user_id)] == r.drop_first()[first_index_of(
            r.drop_first(),
            user_id,
        )]);
        assert forall|j: int| 0 <= j < first_index_of(r, user_id) implies (#[trigger] r[j]).user_id
            != user_id by {
            if j > 0 {
                assert(r.drop_first()[j - 1] == r[j]);
            }
        }
    }
}

/// Removing an entry keeps the registry invariant.
proof fn lemma_wf_after_remove(r: Seq<RegistryEntryV>, i: int, bound: int)
    requires
        0 <= i < r.len(),
        forall|p: int| 0 <= p < r.len() ==> 0 <= (#[trigger] r[p]).user_id < bound,
        forall|p: int, q: int|
            #![trigger r[p], r[q]]
            0 <= p < q < r.len() ==> r[p].user_id < r[q].user_id,
    ensures
        forall|p: int|
            0 <= p < r.remove(i).len() ==> 0 <= (#[trigger] r.remove(i)[p]).user_id < bound,
        forall|p: int, q: int|
            #![trigger r.remove(i)[p], r.remove(i)[q]]
            0 <= p < q < r.remove(i).len() ==> r.remove(i)[p].user_id < r.remove(i)[q].user_id,
{
    assert forall|p: int| 0 <= p < r.remove(i).len() implies 0 <= (#[trigger] r.remove(
        i,
    )[p]).user_id < bound by {
        if p < i {
            assert(r.remove(i)[p] == r[p]);
        } else {
            assert(r.remove(i)[p] == r[p + 1]);
        }
    }
    assert forall|p: int, q: int|
        #![trigger r.remove(i)[p], r.remove(i)[q]]
        0 <= p < q < r.remove(i).len() implies r.remove(i)[p].user_id < r.remove(
        i,
    )[q].user_id by {
        let rp: int = if p < i {
            p
        } else {
            p + 1
        };
        let rq: int = if q < i {
            q
        } else {
            q + 1
        };
        assert(r.remove(i)[p] == r[rp]);
        assert(r.remove(i)[q] == r[rq]);
    }
}

/// The registry invariant of [`manager_wf`] is preserved by every command:
/// identifiers stay unique and below the counter, so a session, once
/// destroyed, is never resurrected under a reused identifier.
pub proof fn lemma_manager_step_preserves_wf(m: ManagerV, cmd: MatrixCommandV)
    requires
        manager_wf(m),
    ensures
        manager_wf(manager_step(m, cmd).0),
{
    if m.stopped {
    } else {
        match cmd {
            MatrixCommandV::Connect { homeserver_url, connection_method } => {
                let stepped = manager_step(m, cmd).0;
                assert forall|p: int| 0 <= p < stepped.registry.len() implies 0 <= (
                #[trigger] stepped.registry[p]).user_id < stepped.next_user_id by {
                    if p < m.registry.len() {
                        assert(stepped.registry[p] == m.registry[p]);
                    }
                }
                assert forall|p: int, q: int|
                    #![trigger stepped.registry[p], stepped.registry[q]]
                    0 <= p < q < stepped.registry.len() implies stepped.registry[p].user_id
                    < stepped.registry[q].user_id by {
                    assert(stepped.registry[p] == m.registry[p]);
                    if q < m.registry.len() {
                        assert(stepped.registry[q] == m.registry[q]);
                    }
                }
            },
            MatrixCommandV::Disconnect(user_id) => {
                if has_id(m.registry, user_id) {
                    lemma_first_index_of(m.registry, user_id);
                    let i = first_index_of(m.registry, user_id);
                    lemma_remove_id_first(m.registry, user_id, i);
                    lemma_wf_after_remove(m.registry, i, m.next_user_id);
                }
            },
            MatrixCommandV::UserSpecificCommand { .. } => {},
            MatrixCommandV::Quit => {},
        }
    }
}

/// The state of the background half of the client: the session registry and
/// the identifier counter, owned exclusively by the command loop.
pub struct Manager {
    registry: Vec<RegistryEntry>,
    next_user_id: InternalUserId,
    stopped: bool,
}

impl View for Manager {
    type V = ManagerV;

    closed spec fn view(&self) -> ManagerV {
        ManagerV {
            registry: self.registry.deep_view(),
            next_user_id: self.next_user_id as int,
            stopped: self.stopped,
        }
    }
}

impl Manager {
    /// A manager with no sessions, handing out identifiers from 0.
    pub fn new() -> (m: Manager)
        ensures
            m@ == initial_manager(),
            manager_wf(m@),
    {
        let m = Manager { registry: Vec::new(), next_user_id: 0, stopped: false };
        proof {
            assert(m@.registry =~= Seq::<RegistryEntryV>::empty());
            assert(m@ =~= initial_manager());
        }
        m
    }

    /// The index of the first registry entry carrying `user_id`, if any.
    fn index_of(&self, user_id: InternalUserId) -> (r: Option<usize>)
        ensures
            match r {
                Some(i) => {
                    &&& (i as int) < self@.registry.len()
                    &&& self@.registry[i as int].user_id == user_id as int
                    &&& forall|j: int|
                        0 <= j < i ==> (#[trigger] self@.registry[j]).user_id != user_id as int
                },
                None => forall|j: int|
                    0 <= j < self@.registry.len() ==> (#[trigger] self@.registry[j]).user_id
                        != user_id as int,
            },
    {
        let n = self.registry.len();
        let mut i: usize = 0;
        while i < n && self.registry[i].user_id != user_id
            invariant
                n == self.registry.len(),
                i <= n,
                forall|j: int|
                    0 <= j < i ==> (#[trigger] self@.registry[j]).user_id != user_id as int,
            decreases n - i,
        {
            i += 1;
        }
        if i < n {
            Some(i)
        } else {
            None
        }
    }

    /// How many sessions are registered.
    pub fn session_count(&self) -> (n: usize)
        ensures
            n == self@.registry.len(),
    {
        self.registry.len()
    }

    /// Whether a session is registered under `user_id`.
    pub fn has_session(&self, user_id: InternalUserId) -> (present: bool)
        ensures
            present == has_id(self@.registry, user_id as int),
    {
        match self.index_of(user_id) {
            Some(i) => {
                proof {
                    assert(self@.registry[i as int].user_id == user_id as int);
                }
                true
            },
            None => {
                proof {
                    assert(!has_id(self@.registry, user_id as int));
                }
                false
            },
        }
    }

    /// The data of the session registered under `user_id`, if any.
    pub fn session_data(&self, user_id: InternalUserId) -> (r: Option<&UserData>)
        ensures
            r.deep_view() == lookup_id(self@.registry, user_id as int),
    {
        match self.index_of(user_id) {
            Some(i) => {
                proof {
                    lemma_lookup_id_first(self@.registry, user_id as int, i as int);
                }
                Some(&self.registry[i].data)
            },
            None => {
                proof {
                    lemma_lookup_id_none(self@.registry, user_id as int);
                }
                None
            },
        }
    }

    /// The identifier the next connect will be given.
    ///
    /// The performer of the command loop checks this against [`u32::MAX`]
    /// before applying a connect: identifiers are never reused, so the
    /// counter only grows.
    pub fn next_session_id(&self) -> (id: InternalUserId)
        ensures
            id as int == self@.next_user_id,
    {
        self.next_user_id
    }

    /// Whether the command loop has been left.
    pub fn is_stopped(&self) -> (b: bool)
        ensures
            b == self@.stopped,
    {
        self.stopped
    }

    /// Apply one command: mutate the registry as [`manager_step`] says and
    /// return the outside work to perform. Never panics: per-session
    /// failures are reported as actions, not by unwinding.
    pub fn handle_command(&mut self, cmd: MatrixCommand) -> (actions: Vec<Action>)
        requires
            cmd matches MatrixCommand::Connect { .. } ==> old(self)@.next_user_id < u32::MAX
                as int,
        ensures
            final(self)@ == manager_step(old(self)@, cmd.deep_view()).0,
            actions.deep_view() == manager_step(old(self)@, cmd.deep_view()).1,
            manager_wf(old(self)@) ==> manager_wf(final(self)@),
    {
        let mut actions: Vec<Action> = Vec::new();
        if self.stopped {
            proof {
                assert(actions.deep_view() =~= Seq::<ActionV>::empty());
            }
            return actions;
        }
        match cmd {
            MatrixCommand::Connect { homeserver_url, connection_method } => {
                let user_id = self.next_user_id;
                let homeserver = host_of_address(homeserver_url.as_str());
                let username = match &connection_method {
                    ConnectionMethod::Login { username, .. } => Some(username.clone()),
                    ConnectionMethod::Guest => None,
                };
                self.registry.push(
                    RegistryEntry {
                        user_id,
                        data: UserData { homeserver, username, display_name: None },
                    },
                );
                self.next_user_id = user_id + 1;
                actions.push(
                    Action::SpawnSyncTask { user_id, homeserver_url, connection_method },
                );
                proof {
                    let stepped = manager_step(old(self)@, cmd.deep_view());
                    assert(self@.registry =~= stepped.0.registry);
                    assert(self@ =~= stepped.0);
                    assert(actions.deep_view() =~= stepped.1);
                }
            },
            MatrixCommand::Disconnect(user_id) => {
                match self.index_of(user_id) {
                    Some(i) => {
                        proof {
                            assert(has_id(self@.registry, user_id as int));
                            lemma_remove_id_first(self@.registry, user_id as int, i as int);
                        }
                        let _removed = self.registry.remove(i);
                        actions.push(Action::SendCancel { user_id });
                        proof {
                            let stepped = manager_step(old(self)@, cmd.deep_view());
                            assert(self@.registry =~= old(self)@.registry.remove(i as int));
                            assert(self@ =~= stepped.0);
                            assert(actions.deep_view() =~= stepped.1);
                        }
                    },
                    None => {
                        actions.push(Action::LogUnknownDisconnect { user_id });
                        proof {
                            assert(!has_id(self@.registry, user_id as int));
                            let stepped = manager_step(old(self)@, cmd.deep_view());
                            assert(self@ =~= stepped.0);
                            assert(actions.deep_view() =~= stepped.1);
                        }
                    },
                }
            },
            MatrixCommand::UserSpecificCommand { user_id, command } => {
                match self.index_of(user_id) {
                    Some(i) => {
                        proof {
                            assert(self@.registry[i as int].user_id == user_id as int);
                            assert(has_id(self@.registry, user_id as int));
                        }
                        match command {
                            UserSpecificCommand::FetchDirectory => {
                                actions.push(Action::SpawnFetchDirectory { user_id });
                            },
                            UserSpecificCommand::SendTextMessage { room_id, message_content } => {
                                actions.push(
                                    Action::SpawnSendTextMessage {
                                        user_id,
                                        room_id,
                                        message_content,
                                    },
                                );
                            },
                        }
                        proof {
                            let stepped = manager_step(old(self)@, cmd.deep_view());
                            assert(self@ =~= stepped.0);
                            assert(actions.deep_view() =~= stepped.1);
                        }
                    },
                    None => {
                        actions.push(Action::LogUnknownUserCommand { user_id });
                        proof {
                            assert(!has_id(self@.registry, user_id as int));
                            let stepped = manager_step(old(self)@, cmd.deep_view());
                            assert(self@ =~= stepped.0);
                            assert(actions.deep_view() =~= stepped.1);
                        }
                    },
                }
            },
            MatrixCommand::Quit => {
                let n = self.registry.len();
                let mut i: usize = 0;
                while i < n
                    invariant
                        n == self.registry.len(),
                        i <= n,
                        actions.deep_view() =~= cancel_all(self@.registry.take(i as int)),
                    decreases n - i,
                {
                    actions.push(Action::SendCancel { user_id: self.registry[i].user_id });
                    proof {
                        let reg = self@.registry;
                        assert(reg.take(i + 1) =~= reg.take(i as int).push(reg[i as int]));
                        assert(cancel_all(reg.take(i + 1)) =~= cancel_all(
                            reg.take(i as int),
                        ).push(ActionV::SendCancel { user_id: reg[i as int].user_id }));
                    }
                    i += 1;
                }
                actions.push(Action::Exit);
                proof {
                    assert(self@.registry.take(n as int) =~= self@.registry);
                }
                self.registry = Vec::new();
                self.stopped = true;
                proof {
                    let stepped = manager_step(old(self)@, cmd.deep_view());
                    assert(self@.registry =~= Seq::<RegistryEntryV>::empty());
                    assert(self@ =~= stepped.0);
                    assert(actions.deep_view() =~= stepped.1);
                }
            },
        }
        proof {
            if manager_wf(old(self)@) {
                lemma_manager_step_preserves_wf(old(self)@, cmd.deep_view());
            }
        }
        actions
    }
}

} // verus!
