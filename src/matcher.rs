//! Selection of the pending inbound message that advances a session.
use vstd::prelude::*;

use crate::messages::{
    is_ack_kind, is_problem_report, is_problem_report_kind, refers_to, thread_matches,
    AriesMessage, MessageKind,
};
use crate::prover::{Prover, ProverState};
use crate::verification::{Verifier, VerifierState};
use crate::registry::Duplicate;

verus! {

/// The allow-list of the prover's matcher: for a state and a message kind,
/// `Some(mandatory)` where that kind may advance the state, with `mandatory`
/// telling whether the message must name the session's thread; `None` where
/// it may not.
pub open spec fn prover_accepts(s: ProverState, k: MessageKind) -> Option<bool> {
    match s {
        ProverState::PresentationProposalSent => match k {
            MessageKind::ReportProblem
            | MessageKind::NotificationProblemReport
            | MessageKind::RequestPresentation => Some(false),
            _ => None,
        },
        ProverState::PresentationSent => match k {
            MessageKind::NotificationAck | MessageKind::PresentationAck => Some(true),
            MessageKind::ReportProblem
            | MessageKind::NotificationProblemReport
            | MessageKind::PresentationProblemReport => Some(false),
            _ => None,
        },
        _ => None,
    }
}

/// Whether a pending message may advance a prover in state `s` on thread `tid`.
pub open spec fn prover_qualifies(s: ProverState, tid: Seq<char>, m: AriesMessage) -> bool {
    match prover_accepts(s, m.kind) {
        Some(mandatory) => refers_to(m.thread_id, tid, mandatory),
        None => false,
    }
}

/// The first pending entry, in the order given, that qualifies.
pub open spec fn prover_select(s: ProverState, tid: Seq<char>, pool: Seq<(String, AriesMessage)>) -> Option<(String, AriesMessage)>
    decreases pool.len(),
{
    if pool.len() == 0 {
        None
    } else if prover_qualifies(s, tid, pool[0].1) {
        Some(pool[0])
    } else {
        prover_select(s, tid, pool.drop_first())
    }
}

/// Tests `prover_accepts`.
pub fn prover_accepts_kind(s: ProverState, k: MessageKind) -> (r: Option<bool>)
    ensures
        r == prover_accepts(s, k),
{
    match s {
        ProverState::PresentationProposalSent => {
            if is_problem_report_kind(k) && k != MessageKind::PresentationProblemReport
                || k == MessageKind::RequestPresentation {
                Some(false)
            } else {
                None
            }
        },
        ProverState::PresentationSent => {
            if is_ack_kind(k) {
                Some(true)
            } else if is_problem_report_kind(k) {
                Some(false)
            } else {
                None
            }
        },
        _ => None,
    }
}

/// Picks, among pending messages keyed by transport id, the first one that
/// may advance the prover in its current state on its thread; `None` where
/// none qualifies.
pub fn prover_find_message_to_handle(sm: &Prover, messages: Vec<(String, AriesMessage)>) -> (r:
    Option<(String, AriesMessage)>)
    ensures
        r == prover_select(sm.state, sm.thread_id@, messages@),
{
    let ghost pool = messages@;
    let mut i: usize = 0;
    assert(pool.subrange(0, pool.len() as int) =~= pool);
    while i < messages.len()
        invariant
            messages@ == pool,
            i <= pool.len(),
            prover_select(sm.state, sm.thread_id@, pool) == prover_select(
                sm.state,
                sm.thread_id@,
                pool.subrange(i as int, pool.len() as int),
            ),
        decreases pool.len() - i,
    {
        let qualifies = match prover_accepts_kind(sm.state, messages[i].1.kind) {
            Some(mandatory) => thread_matches(&messages[i].1.thread_id, &sm.thread_id, mandatory),
            None => false,
        };
        let ghost rest = pool.subrange(i as int, pool.len() as int);
        assert(rest[0] == pool[i as int]);
        if qualifies {
            return Some((messages[i].0.clone(), messages[i].1.duplicate()));
        }
        assert(rest.drop_first() =~= pool.subrange(i + 1, pool.len() as int));
        i = i + 1;
    }
    assert(pool.subrange(i as int, pool.len() as int).len() == 0);
    None
}


/// The allow-list of the verifier's matcher, read as `prover_accepts` is:
/// while the request is out, a problem report (which may name no thread).
/// A presentation is not taken from the pool here: it is settled by
/// `verify_presentation`, which the credential system's verdict drives.
pub open spec fn verifier_accepts(s: VerifierState, k: MessageKind) -> Option<bool> {
    if s == VerifierState::RequestSent && is_problem_report(k) {
        Some(false)
    } else {
        None
    }
}

/// Whether a pending message may advance a verifier in state `s` on thread `tid`.
pub open spec fn verifier_qualifies(s: VerifierState, tid: Seq<char>, m: AriesMessage) -> bool {
    match verifier_accepts(s, m.kind) {
        Some(mandatory) => refers_to(m.thread_id, tid, mandatory),
        None => false,
    }
}

/// The first pending entry, in the order given, that qualifies.
pub open spec fn verifier_select(
    s: VerifierState,
    tid: Seq<char>,
    pool: Seq<(String, AriesMessage)>,
) -> Option<(String, AriesMessage)>
    decreases pool.len(),
{
    if pool.len() == 0 {
        None
    } else if verifier_qualifies(s, tid, pool[0].1) {
        Some(pool[0])
    } else {
        verifier_select(s, tid, pool.drop_first())
    }
}

/// Picks, among pending messages keyed by transport id, the first one that
/// may advance the verifier in its current state on its thread; `None` where
/// none qualifies.
pub fn verifier_find_message_to_handle(
    sm: &Verifier,
    messages: Vec<(String, AriesMessage)>,
) -> (r: Option<(String, AriesMessage)>)
    ensures
        r == verifier_select(sm.state, sm.thread_id@, messages@),
{
    let ghost pool = messages@;
    let mut i: usize = 0;
    assert(pool.subrange(0, pool.len() as int) =~= pool);
    while i < messages.len()
        invariant
            messages@ == pool,
            i <= pool.len(),
            verifier_select(sm.state, sm.thread_id@, pool) == verifier_select(
                sm.state,
                sm.thread_id@,
                pool.subrange(i as int, pool.len() as int),
            ),
        decreases pool.len() - i,
    {
        let k = messages[i].1.kind;
        let accepts = if sm.state == VerifierState::RequestSent && is_problem_report_kind(k) {
            Some(false)
        } else {
            None
        };
        let qualifies = match accepts {
            Some(mandatory) => thread_matches(&messages[i].1.thread_id, &sm.thread_id, mandatory),
            None => false,
        };
        let ghost rest = pool.subrange(i as int, pool.len() as int);
        assert(rest[0] == pool[i as int]);
        if qualifies {
            return Some((messages[i].0.clone(), messages[i].1.duplicate()));
        }
        assert(rest.drop_first() =~= pool.subrange(i + 1, pool.len() as int));
        i = i + 1;
    }
    assert(pool.subrange(i as int, pool.len() as int).len() == 0);
    None
}

} // verus!
