//! Properties that relate several operations, stated over the models that
//! the operations' own contracts use.
use vstd::prelude::*;

use crate::disclosed_proof::{restored, snapshot_version, DisclosedProofs};
use crate::matcher::{prover_qualifies, prover_select};
use crate::messages::{is_ack, AriesMessage};
use crate::prover::{prover_after, prover_status_code, Prover, ProverState};
use crate::verification::{verifier_after, Verifier, VerifierState};

verus! {

/// A persisted prover session restores to the very session it was taken
/// from: the same state, thread id, presentation status and all else.
/// (`snapshot` yields such a form, and `from_snapshot` stores `restored`.)
pub proof fn lemma_snapshot_round_trip(p: Prover, s: DisclosedProofs)
    requires
        p.wf(),
        s.data == p,
        s.version@ == snapshot_version(),
    ensures
        restored(s) == Some(p),
        restored(s)->Some_0.state == p.state,
        restored(s)->Some_0.thread_id == p.thread_id,
        prover_status_code(restored(s)->Some_0.state) == prover_status_code(p.state),
{
}

/// A prover that waits for the acknowledgement of its presentation, given
/// one pending message that is an acknowledgement on its thread, selects it.
pub proof fn lemma_matching_ack_selected(p: Prover, uid: String, m: AriesMessage)
    requires
        p.state == ProverState::PresentationSent,
        is_ack(m.kind),
        m.thread_id matches Some(t) && t@ == p.thread_id@,
    ensures
        prover_select(p.state, p.thread_id@, seq![(uid, m)]) == Some((uid, m)),
{
    assert(prover_qualifies(p.state, p.thread_id@, m));
}

/// Where no pending message qualifies, the matcher selects none (and
/// `update_state` then leaves the session as it was).
pub proof fn lemma_no_qualifying_message(
    s: ProverState,
    tid: Seq<char>,
    pool: Seq<(String, AriesMessage)>,
)
    requires
        forall|i: int| 0 <= i < pool.len() ==> !prover_qualifies(s, tid, #[trigger] pool[i].1),
    ensures
        prover_select(s, tid, pool) is None,
    decreases pool.len(),
{
    if pool.len() > 0 {
        assert forall|i: int| 0 <= i < pool.drop_first().len() implies !prover_qualifies(
            s,
            tid,
            #[trigger] pool.drop_first()[i].1,
        ) by {
            assert(pool.drop_first()[i] == pool[i + 1]);
        }
        assert(!prover_qualifies(s, tid, pool[0].1));
        lemma_no_qualifying_message(s, tid, pool.drop_first());
    }
}

/// The matcher selects only a pending entry that qualifies, taken from the
/// pool as it stands.
pub proof fn lemma_selected_qualifies(
    s: ProverState,
    tid: Seq<char>,
    pool: Seq<(String, AriesMessage)>,
)
    ensures
        prover_select(s, tid, pool) matches Some(e) ==> pool.contains(e) && prover_qualifies(
            s,
            tid,
            e.1,
        ),
    decreases pool.len(),
{
    if pool.len() > 0 && !prover_qualifies(s, tid, pool[0].1) {
        lemma_selected_qualifies(s, tid, pool.drop_first());
        if let Some(e) = prover_select(s, tid, pool) {
            let j = choose|j: int| 0 <= j < pool.drop_first().len() && pool.drop_first()[j] == e;
            assert(pool[j + 1] == e);
        }
    }
}

/// Restoring the persisted form of a live session gives a session with the
/// same state, thread id and presentation status. `snapshot` yields `s`
/// with `s.data` the session under `handle`; `from_snapshot` accepts it
/// (`restored(s)` holds) and, while handles are left below `u32::MAX`,
/// stores it under a fresh handle `h2`, giving `after`.
pub proof fn lemma_round_trip_in_registry(
    before: Map<u32, Prover>,
    handle: u32,
    s: DisclosedProofs,
    h2: u32,
    after: Map<u32, Prover>,
)
    requires
        before.contains_key(handle),
        before[handle].wf(),
        s.data == before[handle],
        s.version@ == snapshot_version(),
        after == before.insert(h2, s.data),
    ensures
        restored(s) is Some,
        after.contains_key(h2),
        after[h2].state == before[handle].state,
        after[h2].thread_id == before[handle].thread_id,
        prover_status_code(after[h2].state) == prover_status_code(before[handle].state),
{
}

/// A released handle names no session: every query on it then fails.
pub proof fn lemma_released_handle_unknown(sessions: Map<u32, Prover>, handle: u32)
    ensures
        !sessions.remove(handle).contains_key(handle),
{
}

/// A finished or failed verifier ignores every further message, so its
/// verification status, once set, is never set again.
pub proof fn lemma_verifier_terminal_states_stay(v: Verifier, m: AriesMessage)
    requires
        v.state == VerifierState::Finished || v.state == VerifierState::Failed,
    ensures
        verifier_after(v, m) == v,
{
}

/// A finished, failed or declined prover ignores every further message.
pub proof fn lemma_prover_terminal_states_stay(p: Prover, m: AriesMessage)
    requires
        p.state == ProverState::Finished || p.state == ProverState::Failed || p.state
            == ProverState::Declined,
    ensures
        prover_after(p, m) == p,
{
}

} // verus!
