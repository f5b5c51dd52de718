//! The synchronization task for one session: authenticate, then long-poll the
//! server for new events and forward them to the user-interface thread in
//! arrival order, until cancelled or a fatal error occurs.
//!
//! The task is a state machine. The surrounding process performs the network
//! call the current state asks for (authenticate, or one long poll), then
//! feeds the outcome back through [`SyncTask::step`], which returns the
//! events to forward. Cancellation is cooperative: it is observed as the
//! [`SyncInput::Cancelled`] input at the task's next suspension point.

use vstd::prelude::*;
use crate::commands::{FrontendCommand, FrontendCommandV, RemoteEvent, RemoteEventV};
use crate::session::{ConnectionMethod, ConnectionMethodV};

verus! {

/// Why a synchronization task stopped. The task never stops on its own under
/// normal operation: the poll loop is logically infinite.
#[derive(Clone, Copy, Debug, PartialEq, Eq, Structural)]
pub enum TerminationReason {
    /// Logging in or registering as a guest failed. Fatal to the one
    /// affected session alone; it stays registered until an explicit
    /// disconnect.
    AuthFailure,
    /// A long poll failed. Fatal to the one affected session alone; no
    /// automatic retry.
    SyncFailure,
    /// The task's cancellation signal was observed.
    Cancelled,
}

impl DeepView for TerminationReason {
    type V = TerminationReason;

    open spec fn deep_view(&self) -> TerminationReason {
        *self
    }
}

/// The state of one session's synchronization task.
#[derive(Clone, Debug, PartialEq, Eq)]
pub enum SyncTask {
    /// Waiting for the authentication call chosen by `connection_method`.
    Authenticating { connection_method: ConnectionMethod },
    /// Waiting for the long poll issued with `cursor`; absent means
    /// synchronization starts from the beginning.
    Syncing { cursor: Option<String> },
    /// Stopped; no further input produces events.
    Terminated { reason: TerminationReason },
}

/// Ghost form of [`SyncTask`].
#[verifier::ext_equal]
pub enum SyncTaskV {
    Authenticating { connection_method: ConnectionMethodV },
    Syncing { cursor: Option<Seq<char>> },
    Terminated { reason: TerminationReason },
}

impl DeepView for SyncTask {
    type V = SyncTaskV;

    open spec fn deep_view(&self) -> SyncTaskV {
        match self {
            SyncTask::Authenticating { connection_method } => (SyncTaskV::Authenticating {
                connection_method: connection_method.deep_view(),
            }),
            SyncTask::Syncing { cursor } => (SyncTaskV::Syncing { cursor: cursor.deep_view() }),
            SyncTask::Terminated { reason } => (SyncTaskV::Terminated { reason: *reason }),
        }
    }
}

/// The outcome of one outside call, handed back to the task.
#[derive(Clone, Debug, PartialEq, Eq)]
pub enum SyncInput {
    /// The authentication call succeeded.
    AuthSucceeded,
    /// The authentication call failed.
    AuthFailed,
    /// One long poll returned: the new events, in arrival order, and the
    /// cursor to resume from.
    SyncBatch { events: Vec<RemoteEvent>, next_cursor: String },
    /// One long poll failed.
    SyncFailed,
    /// The cancellation signal was observed.
    Cancelled,
}

/// Ghost form of [`SyncInput`].
#[verifier::ext_equal]
pub enum SyncInputV {
    AuthSucceeded,
    AuthFailed,
    SyncBatch { events: Seq<RemoteEventV>, next_cursor: Seq<char> },
    SyncFailed,
    Cancelled,
}

impl DeepView for SyncInput {
    type V = SyncInputV;

    open spec fn deep_view(&self) -> SyncInputV {
        match self {
            SyncInput::AuthSucceeded => SyncInputV::AuthSucceeded,
            SyncInput::AuthFailed => SyncInputV::AuthFailed,
            SyncInput::SyncBatch { events, next_cursor } => (SyncInputV::SyncBatch {
                events: events.deep_view(),
                next_cursor: next_cursor.deep_view(),
            }),
            SyncInput::SyncFailed => SyncInputV::SyncFailed,
            SyncInput::Cancelled => SyncInputV::Cancelled,
        }
    }
}

/// The user-interface events one remote event gives rise to: a room text
/// message is displayed; anything else is forwarded nowhere.
pub open spec fn translate_event(e: RemoteEventV) -> Seq<FrontendCommandV> {
    match e {
        RemoteEventV::RoomTextMessage { room_id, sender_name, message_content } => seq![
            FrontendCommandV::DisplayTextMessage {
                room_id: room_id,
                author_name: sender_name,
                message_content: message_content,
            },
        ],
        RemoteEventV::Unsupported => Seq::empty(),
    }
}

/// The user-interface events of a whole batch, in arrival order.
pub open spec fn translate_events(events: Seq<RemoteEventV>) -> Seq<FrontendCommandV>
    decreases events.len(),
{
    if events.len() == 0 {
        Seq::empty()
    } else {
        translate_event(events[0]) + translate_events(events.drop_first())
    }
}

/// Translation distributes over concatenation: forwarding two batches one
/// after the other forwards exactly the events of the batches joined, in
/// order.
pub proof fn lemma_translate_events_concat(a: Seq<RemoteEventV>, b: Seq<RemoteEventV>)
    ensures
        translate_events(a + b) =~= translate_events(a) + translate_events(b),
    decreases a.len(),
{
    if a.len() == 0 {
        assert(a + b =~= b);
        assert(translate_events(a) =~= Seq::empty());
    } else {
        lemma_translate_events_concat(a.drop_first(), b);
        assert((a + b).drop_first() =~= a.drop_first() + b);
        assert((a + b)[0] == a[0]);
    }
}

/// One step of the synchronization task: the next state, and the events to
/// forward to the user interface. An input that does not belong to the
/// current state changes nothing; a terminated task ignores everything.
pub open spec fn sync_step(st: SyncTaskV, input: SyncInputV) -> (SyncTaskV, Seq<FrontendCommandV>) {
    match st {
        SyncTaskV::Authenticating { connection_method } => match input {
            SyncInputV::AuthSucceeded => (
                SyncTaskV::Syncing { cursor: None },
                Seq::empty(),
            ),
            SyncInputV::AuthFailed => (
                SyncTaskV::Terminated { reason: TerminationReason::AuthFailure },
                Seq::empty(),
            ),
            SyncInputV::Cancelled => (
                SyncTaskV::Terminated { reason: TerminationReason::Cancelled },
                Seq::empty(),
            ),
            _ => (st, Seq::empty()),
        },
        SyncTaskV::Syncing { cursor } => match input {
            SyncInputV::SyncBatch { events, next_cursor } => (
                SyncTaskV::Syncing { cursor: Some(next_cursor) },
                translate_events(events),
            ),
            SyncInputV::SyncFailed => (
                SyncTaskV::Terminated { reason: TerminationReason::SyncFailure },
                Seq::empty(),
            ),
            SyncInputV::Cancelled => (
                SyncTaskV::Terminated { reason: TerminationReason::Cancelled },
                Seq::empty(),
            ),
            _ => (st, Seq::empty()),
        },
        SyncTaskV::Terminated { .. } => (st, Seq::empty()),
    }
}

impl SyncTask {
    /// A task for a freshly created session: about to authenticate with
    /// `connection_method`, synchronization not yet begun.
    pub fn new(connection_method: ConnectionMethod) -> (t: SyncTask)
        ensures
            t.deep_view() == (SyncTaskV::Authenticating {
                connection_method: connection_method.deep_view(),
            }),
    {
        SyncTask::Authenticating { connection_method }
    }

    /// Apply the outcome of one outside call, returning the events to
    /// forward, in arrival order.
    pub fn step(&mut self, input: SyncInput) -> (events: Vec<FrontendCommand>)
        ensures
            final(self).deep_view() == sync_step(old(self).deep_view(), input.deep_view()).0,
            events.deep_view() == sync_step(old(self).deep_view(), input.deep_view()).1,
    {
        let mut events: Vec<FrontendCommand> = Vec::new();
        match &*self {
            SyncTask::Authenticating { .. } => {
                match input {
                    SyncInput::AuthSucceeded => {
                        *self = SyncTask::Syncing { cursor: None };
                    },
                    SyncInput::AuthFailed => {
                        *self = SyncTask::Terminated { reason: TerminationReason::AuthFailure };
                    },
                    SyncInput::Cancelled => {
                        *self = SyncTask::Terminated { reason: TerminationReason::Cancelled };
                    },
                    _ => {},
                }
            },
            SyncTask::Syncing { .. } => {
                match input {
                    SyncInput::SyncBatch { events: remote, next_cursor } => {
                        let n = remote.len();
                        let mut k: usize = 0;
                        while k < n
                            invariant
                                n == remote.len(),
                                k <= n,
                                events.deep_view() =~= translate_events(
                                    remote.deep_view().take(k as int),
                                ),
                            decreases n - k,
                        {
                            match &remote[k] {
                                RemoteEvent::RoomTextMessage {
                                    room_id,
                                    sender_name,
                                    message_content,
                                } => {
                                    events.push(
                                        FrontendCommand::DisplayTextMessage {
                                            room_id: room_id.clone(),
                                            author_name: sender_name.clone(),
                                            message_content: message_content.clone(),
                                        },
                                    );
                                },
                                RemoteEvent::Unsupported => {},
                            }
                            proof {
                                let evs = remote.deep_view();
                                let single = seq![evs[k as int]];
                                assert(evs.take(k + 1) =~= evs.take(k as int) + single);
                                lemma_translate_events_concat(evs.take(k as int), single);
                                assert(single.drop_first() =~= Seq::<RemoteEventV>::empty());
                                assert(translate_events(Seq::<RemoteEventV>::empty()) =~= Seq::<
                                    FrontendCommandV,
                                >::empty());
                                assert(translate_events(single) =~= translate_event(
                                    evs[k as int],
                                ));
                            }
                            k += 1;
                        }
                        proof {
                            assert(remote.deep_view().take(n as int) =~= remote.deep_view());
                        }
                        *self = SyncTask::Syncing { cursor: Some(next_cursor) };
                    },
                    SyncInput::SyncFailed => {
                        *self = SyncTask::Terminated { reason: TerminationReason::SyncFailure };
                    },
                    SyncInput::Cancelled => {
                        *self = SyncTask::Terminated { reason: TerminationReason::Cancelled };
                    },
                    _ => {},
                }
            },
            SyncTask::Terminated { .. } => {},
        }
        events
    }
}

} // verus!
