//! The guarantees the core gives across whole runs, stated and proved over
//! the ghost state machines: what holds of any command sequence fed to the
//! session manager, and of any input sequence fed to a synchronization task.

use vstd::prelude::*;
use crate::commands::{FrontendCommandV, MatrixCommandV, RemoteEventV};
use crate::manager::{
    cancel_all, has_id, lemma_manager_step_preserves_wf, manager_step, manager_wf, ActionV,
    ManagerV, RegistryEntryV,
};
use crate::sync_task::{
    lemma_translate_events_concat, sync_step, translate_events, SyncInputV, SyncTaskV,
    TerminationReason,
};

verus! {

/// The manager after applying a whole command sequence in arrival order,
/// with every action the run gives rise to, concatenated in order.
pub open spec fn run_steps(m: ManagerV, cmds: Seq<MatrixCommandV>) -> (ManagerV, Seq<ActionV>)
    decreases cmds.len(),
{
    if cmds.len() == 0 {
        (m, Seq::empty())
    } else {
        let stepped = manager_step(m, cmds[0]);
        let rest = run_steps(stepped.0, cmds.drop_first());
        (rest.0, stepped.1 + rest.1)
    }
}

/// The session identifiers handed to spawned synchronization tasks, in the
/// order the tasks are spawned.
pub open spec fn spawned_ids(acts: Seq<ActionV>) -> Seq<int>
    decreases acts.len(),
{
    if acts.len() == 0 {
        Seq::empty()
    } else {
        let rest = spawned_ids(acts.drop_first());
        if acts[0] is SpawnSyncTask {
            seq![acts[0]->SpawnSyncTask_user_id] + rest
        } else {
            rest
        }
    }
}

/// How many connects of `cmds` are applied: those arriving while the
/// manager is not yet stopped.
pub open spec fn connects_applied(m: ManagerV, cmds: Seq<MatrixCommandV>) -> nat
    decreases cmds.len(),
{
    if cmds.len() == 0 {
        0
    } else {
        let inc: nat = if !m.stopped && cmds[0] is Connect {
            1
        } else {
            0
        };
        inc + connects_applied(manager_step(m, cmds[0]).0, cmds.drop_first())
    }
}

/// How often the cancellation signal for `user_id` occurs in `acts`.
pub open spec fn cancel_count(acts: Seq<ActionV>, user_id: int) -> nat
    decreases acts.len(),
{
    if acts.len() == 0 {
        0
    } else {
        let inc: nat = if acts[0] == (ActionV::SendCancel { user_id }) {
            1
        } else {
            0
        };
        inc + cancel_count(acts.drop_first(), user_id)
    }
}

proof fn lemma_spawned_ids_concat(a: Seq<ActionV>, b: Seq<ActionV>)
    ensures
        spawned_ids(a + b) =~= spawned_ids(a) + spawned_ids(b),
    decreases a.len(),
{
    if a.len() == 0 {
        assert(a + b =~= b);
        assert(spawned_ids(a) =~= Seq::empty());
    } else {
        lemma_spawned_ids_concat(a.drop_first(), b);
        assert((a + b).drop_first() =~= a.drop_first() + b);
        assert((a + b)[0] == a[0]);
    }
}

proof fn lemma_spawned_ids_no_spawn(acts: Seq<ActionV>)
    requires
        forall|i: int| 0 <= i < acts.len() ==> !((#[trigger] acts[i]) is SpawnSyncTask),
    ensures
        spawned_ids(acts) =~= Seq::<int>::empty(),
    decreases acts.len(),
{
    if acts.len() == 0 {
    } else {
        assert forall|i: int| 0 <= i < acts.drop_first().len() implies !((#[trigger] acts.drop_first()[i])
            is SpawnSyncTask) by {
            assert(acts.drop_first()[i] == acts[i + 1]);
        }
        lemma_spawned_ids_no_spawn(acts.drop_first());
    }
}

/// Over any command sequence, the identifiers of the sessions the manager
/// creates are consecutive from its counter: each connect that is applied
/// is given exactly the next identifier. In particular the identifiers are
/// strictly increasing and unique, whatever other commands are interleaved
/// — a fresh manager hands out 0, 1, 2, ….
pub proof fn lemma_session_ids_consecutive(m: ManagerV, cmds: Seq<MatrixCommandV>)
    ensures
        spawned_ids(run_steps(m, cmds).1) =~= Seq::new(
            connects_applied(m, cmds),
            |k: int| m.next_user_id + k,
        ),
        forall|p: int, q: int|
            0 <= p < q < spawned_ids(run_steps(m, cmds).1).len() ==> spawned_ids(
                run_steps(m, cmds).1,
            )[p] < spawned_ids(run_steps(m, cmds).1)[q],
    decreases cmds.len(),
{
    if cmds.len() == 0 {
        assert(spawned_ids(run_steps(m, cmds).1) =~= Seq::<int>::empty());
    } else {
        let stepped = manager_step(m, cmds[0]);
        let rest = run_steps(stepped.0, cmds.drop_first());
        lemma_session_ids_consecutive(stepped.0, cmds.drop_first());
        lemma_spawned_ids_concat(stepped.1, rest.1);
        if m.stopped {
            assert(stepped.1 =~= Seq::<ActionV>::empty());
            assert(spawned_ids(stepped.1) =~= Seq::<int>::empty());
        } else {
            match cmds[0] {
                MatrixCommandV::Connect { .. } => {
                    assert(stepped.1.drop_first() =~= Seq::<ActionV>::empty());
                    assert(spawned_ids(Seq::<ActionV>::empty()) =~= Seq::<int>::empty());
                    assert(spawned_ids(stepped.1) =~= seq![m.next_user_id]);
                },
                MatrixCommandV::Disconnect(_) => {
                    assert(stepped.1.drop_first() =~= Seq::<ActionV>::empty());
                    assert(spawned_ids(Seq::<ActionV>::empty()) =~= Seq::<int>::empty());
                    assert(spawned_ids(stepped.1) =~= Seq::<int>::empty());
                },
                MatrixCommandV::UserSpecificCommand { .. } => {
                    assert(stepped.1.drop_first() =~= Seq::<ActionV>::empty());
                    assert(spawned_ids(Seq::<ActionV>::empty()) =~= Seq::<int>::empty());
                    assert(spawned_ids(stepped.1) =~= Seq::<int>::empty());
                },
                MatrixCommandV::Quit => {
                    assert forall|i: int| 0 <= i < stepped.1.len() implies !((#[trigger] stepped.1[i])
                        is SpawnSyncTask) by {
                        if i < cancel_all(m.registry).len() {
                            assert(stepped.1[i] == cancel_all(m.registry)[i]);
                        } else {
                            assert(stepped.1[i] == ActionV::Exit);
                        }
                    }
                    lemma_spawned_ids_no_spawn(stepped.1);
                },
            }
        }
        assert(spawned_ids(run_steps(m, cmds).1) =~= Seq::new(
            connects_applied(m, cmds),
            |k: int| m.next_user_id + k,
        ));
    }
}

/// The registry invariant holds in every state any command sequence can
/// reach: along a whole run, session identifiers stay unique and below the
/// counter.
pub proof fn lemma_run_preserves_registry_invariant(m: ManagerV, cmds: Seq<MatrixCommandV>)
    requires
        manager_wf(m),
    ensures
        manager_wf(run_steps(m, cmds).0),
    decreases cmds.len(),
{
    if cmds.len() == 0 {
    } else {
        lemma_manager_step_preserves_wf(m, cmds[0]);
        lemma_run_preserves_registry_invariant(manager_step(m, cmds[0]).0, cmds.drop_first());
    }
}

/// A disconnect for an identifier that was never issued is merely reported:
/// the registry — its size in particular — is left unchanged, and no other
/// work arises.
pub proof fn lemma_disconnect_unknown_leaves_registry(m: ManagerV, user_id: int)
    requires
        !m.stopped,
        !has_id(m.registry, user_id),
    ensures
        manager_step(m, MatrixCommandV::Disconnect(user_id)).0 == m,
        manager_step(m, MatrixCommandV::Disconnect(user_id)).1 =~= seq![
            ActionV::LogUnknownDisconnect { user_id },
        ],
{
}

proof fn lemma_cancel_count_snoc(acts: Seq<ActionV>, a: ActionV, user_id: int)
    ensures
        cancel_count(acts.push(a), user_id) == cancel_count(acts, user_id) + (
        if a == (ActionV::SendCancel { user_id }) {
            1nat
        } else {
            0nat
        }),
    decreases acts.len(),
{
    if acts.len() == 0 {
        assert(acts.push(a)[0] == a);
        assert(acts.push(a).drop_first() =~= Seq::<ActionV>::empty());
        assert(cancel_count(Seq::<ActionV>::empty(), user_id) == 0);
    } else {
        assert(acts.push(a)[0] == acts[0]);
        assert(acts.push(a).drop_first() =~= acts.drop_first().push(a));
        lemma_cancel_count_snoc(acts.drop_first(), a, user_id);
    }
}

proof fn lemma_cancel_all_count(r: Seq<RegistryEntryV>, user_id: int)
    requires
        forall|p: int, q: int|
            #![trigger r[p], r[q]]
            0 <= p < q < r.len() ==> r[p].user_id < r[q].user_id,
    ensures
        cancel_count(cancel_all(r), user_id) == (if has_id(r, user_id) {
            1nat
        } else {
            0nat
        }),
    decreases r.len(),
{
    if r.len() == 0 {
        assert(cancel_all(r) =~= Seq::<ActionV>::empty());
        assert(!has_id(r, user_id));
    } else {
        let tail = r.drop_first();
        assert forall|p: int, q: int|
            #![trigger tail[p], tail[q]]
            0 <= p < q < tail.len() implies tail[p].user_id < tail[q].user_id by {
            assert(tail[p] == r[p + 1]);
            assert(tail[q] == r[q + 1]);
        }
        lemma_cancel_all_count(tail, user_id);
        assert(cancel_all(r)[0] == (ActionV::SendCancel { user_id: r[0].user_id }));
        assert(cancel_all(r).drop_first() =~= cancel_all(tail));
        if r[0].user_id == user_id {
            assert(has_id(r, user_id));
            assert forall|j: int| 0 <= j < tail.len() implies (#[trigger] tail[j]).user_id
                != user_id by {
                assert(tail[j] == r[j + 1]);
                assert(r[0].user_id < r[j + 1].user_id);
            }
            assert(!has_id(tail, user_id));
        } else {
            if has_id(tail, user_id) {
                let w = choose|i: int| 0 <= i < tail.len() && (#[trigger] tail[i]).user_id == user_id;
                assert(tail[w] == r[w + 1]);
                assert(has_id(r, user_id));
            }
            if has_id(r, user_id) {
                let w = choose|i: int| 0 <= i < r.len() && (#[trigger] r[i]).user_id == user_id;
                assert(w != 0);
                assert(tail[w - 1] == r[w]);
                assert(has_id(tail, user_id));
            }
        }
    }
}

/// Quit with any number of sessions still registered signals each of their
/// cancellation handles exactly once: one signal per registered identifier,
/// none for any other identifier.
pub proof fn lemma_quit_cancels_each_session_once(m: ManagerV, user_id: int)
    requires
        !m.stopped,
        manager_wf(m),
    ensures
        cancel_count(manager_step(m, MatrixCommandV::Quit).1, user_id) == (if has_id(
            m.registry,
            user_id,
        ) {
            1nat
        } else {
            0nat
        }),
{
    lemma_cancel_count_snoc(cancel_all(m.registry), ActionV::Exit, user_id);
    lemma_cancel_all_count(m.registry, user_id);
}

/// The first quit stops the loop; a second quit — or any other command sent
/// to the stopped manager — changes nothing and gives rise to no work. The
/// loop exits on the first quit and ignores further input.
pub proof fn lemma_quit_twice_is_harmless(m: ManagerV, cmd: MatrixCommandV)
    requires
        !m.stopped,
    ensures
        manager_step(m, MatrixCommandV::Quit).0.stopped,
        manager_step(manager_step(m, MatrixCommandV::Quit).0, cmd).0 == manager_step(
            m,
            MatrixCommandV::Quit,
        ).0,
        manager_step(manager_step(m, MatrixCommandV::Quit).0, cmd).1 =~= Seq::<ActionV>::empty(),
{
}

/// A synchronization task after feeding it a whole input sequence, with
/// every event the run forwards, concatenated in order.
pub open spec fn sync_run(st: SyncTaskV, inputs: Seq<SyncInputV>) -> (SyncTaskV, Seq<
    FrontendCommandV,
>)
    decreases inputs.len(),
{
    if inputs.len() == 0 {
        (st, Seq::empty())
    } else {
        let stepped = sync_step(st, inputs[0]);
        let rest = sync_run(stepped.0, inputs.drop_first());
        (rest.0, stepped.1 + rest.1)
    }
}

/// A stopped task stays stopped and forwards nothing, whatever still
/// arrives.
pub proof fn lemma_terminated_emits_nothing(reason: TerminationReason, inputs: Seq<SyncInputV>)
    ensures
        sync_run(SyncTaskV::Terminated { reason }, inputs).0 == (SyncTaskV::Terminated { reason }),
        sync_run(SyncTaskV::Terminated { reason }, inputs).1 =~= Seq::<FrontendCommandV>::empty(),
    decreases inputs.len(),
{
    if inputs.len() == 0 {
    } else {
        lemma_terminated_emits_nothing(reason, inputs.drop_first());
    }
}

/// Once a task observes its cancellation signal it is terminated, and no
/// later input — no further poll outcome — makes it forward an event: after
/// a disconnect, no event of that session leaks out.
pub proof fn lemma_no_events_after_cancel(st: SyncTaskV, inputs: Seq<SyncInputV>)
    ensures
        sync_step(st, SyncInputV::Cancelled).0 is Terminated,
        sync_run(sync_step(st, SyncInputV::Cancelled).0, inputs).1 =~= Seq::<
            FrontendCommandV,
        >::empty(),
{
    let st1 = sync_step(st, SyncInputV::Cancelled).0;
    assert(st1 is Terminated);
    lemma_terminated_emits_nothing(st1->reason, inputs);
}

/// Events of one session keep their arrival order end to end: two
/// successful polls in a row forward exactly the two batches' events joined
/// in order, while the cursor advances to each poll's successor in turn.
pub proof fn lemma_sync_preserves_event_order(
    cursor: Option<Seq<char>>,
    a: Seq<RemoteEventV>,
    t1: Seq<char>,
    b: Seq<RemoteEventV>,
    t2: Seq<char>,
)
    ensures
        ({
            let s0 = SyncTaskV::Syncing { cursor };
            let step1 = sync_step(s0, SyncInputV::SyncBatch { events: a, next_cursor: t1 });
            let step2 = sync_step(
                step1.0,
                SyncInputV::SyncBatch { events: b, next_cursor: t2 },
            );
            &&& step1.0 == (SyncTaskV::Syncing { cursor: Some(t1) })
            &&& step2.0 == (SyncTaskV::Syncing { cursor: Some(t2) })
            &&& step1.1 + step2.1 == translate_events(a + b)
        }),
{
    let s0 = SyncTaskV::Syncing { cursor };
    let step1 = sync_step(s0, SyncInputV::SyncBatch { events: a, next_cursor: t1 });
    let step2 = sync_step(step1.0, SyncInputV::SyncBatch { events: b, next_cursor: t2 });
    lemma_translate_events_concat(a, b);
    assert(step1.1 + step2.1 =~= translate_events(a + b));
}

} // verus!
