//! Prover sessions under legacy integer handles.
use vstd::prelude::*;

use crate::error::ErrorKind;
use crate::matcher::{prover_find_message_to_handle, prover_select};
use crate::messages::{request_thread, AriesMessage, MessageKind};
use crate::prover::{
    is_decline_message, prover_after, prover_may_decline, prover_state_code, prover_status_code,
    prover_waits, Prover, ProverState,
};
use crate::registry::{Duplicate, HandleCache};

verus! {

/// A handle registry of provers, each of them well formed.
pub open spec fn provers_wf(h: HandleCache<Prover>) -> bool {
    &&& h.wf()
    &&& forall|k: u32| #[trigger] h@.contains_key(k) ==> h@[k].wf()
}

/// Creates a prover session for an inbound presentation request.
pub fn create_with_proof_request(
    handles: &mut HandleCache<Prover>,
    source_id: &str,
    request: AriesMessage,
) -> (r: Result<u32, ErrorKind>)
    requires
        provers_wf(*old(handles)),
    ensures
        provers_wf(*final(handles)),
        request.kind != MessageKind::RequestPresentation ==> r == Err::<u32, ErrorKind>(
            ErrorKind::InvalidMessages,
        ),
        request.kind == MessageKind::RequestPresentation ==> (r is Ok <==> old(
            handles,
        ).next_handle() < u32::MAX),
        r is Err ==> *final(handles) == *old(handles),
        r matches Ok(h) ==> {
            &&& h == old(handles).next_handle()
            &&& final(handles).next_handle() == h + 1
            &&& !old(handles)@.contains_key(h)
            &&& final(handles)@.dom() == old(handles)@.dom().insert(h)
            &&& final(handles)@.remove(h) == old(handles)@
            &&& final(handles)@[h].state == ProverState::PresentationRequestReceived
            &&& final(handles)@[h].source_id@ == source_id@
            &&& final(handles)@[h].thread_id@ == request_thread(request)
            &&& final(handles)@[h].request == Some(request)
            &&& final(handles)@[h].presentation is None
        },
{
    let ghost req = request;
    let proof = Prover::create_from_request(source_id, request)?;
    let r = handles.add(proof);
    proof {
        if let Ok(h) = r {
            assert(final(handles)@.remove(h) =~= old(handles)@);
            assert(final(handles)@.dom() =~= old(handles)@.dom().insert(h));
        }
    }
    r
}

/// The state code of the session under `handle`.
pub fn get_state(handles: &HandleCache<Prover>, handle: u32) -> (r: Result<u32, ErrorKind>)
    requires
        provers_wf(*handles),
    ensures
        handles@.contains_key(handle) ==> r == Ok::<u32, ErrorKind>(
            prover_state_code(handles@[handle].state),
        ),
        !handles@.contains_key(handle) ==> r == Err::<u32, ErrorKind>(
            ErrorKind::InvalidDisclosedProofHandle,
        ),
{
    match handles.get(handle) {
        Ok(p) => Ok(p.get_state().to_u32()),
        Err(_) => Err(ErrorKind::InvalidDisclosedProofHandle),
    }
}

/// Advances the session under `handle` by an explicit message, or else by
/// the first pending message that the matcher selects. Returns the new
/// state code and the transport id of the pending message consumed, if
/// any. A session that waits for no message is left as it is.
pub fn update_state(
    handles: &mut HandleCache<Prover>,
    handle: u32,
    message: Option<AriesMessage>,
    pending: Vec<(String, AriesMessage)>,
) -> (r: Result<(u32, Option<String>), ErrorKind>)
    requires
        provers_wf(*old(handles)),
    ensures
        provers_wf(*final(handles)),
        final(handles).next_handle() == old(handles).next_handle(),
        !old(handles)@.contains_key(handle) ==> r == Err::<(u32, Option<String>), ErrorKind>(
            ErrorKind::InvalidHandle,
        ) && *final(handles) == *old(handles),
        old(handles)@.contains_key(handle) ==> {
            let p = old(handles)@[handle];
            if !prover_waits(p.state) {
                &&& r == Ok::<(u32, Option<String>), ErrorKind>((prover_state_code(p.state), None))
                &&& final(handles)@ == old(handles)@
            } else {
                match message {
                    Some(m) => {
                        &&& r == Ok::<(u32, Option<String>), ErrorKind>(
                            (prover_state_code(prover_after(p, m).state), None),
                        )
                        &&& final(handles)@ == old(handles)@.insert(handle, prover_after(p, m))
                    },
                    None => match prover_select(p.state, p.thread_id@, pending@) {
                        None => {
                            &&& r == Ok::<(u32, Option<String>), ErrorKind>(
                                (prover_state_code(p.state), None),
                            )
                            &&& final(handles)@ == old(handles)@
                        },
                        Some((uid, m)) => {
                            &&& r == Ok::<(u32, Option<String>), ErrorKind>(
                                (prover_state_code(prover_after(p, m).state), Some(uid)),
                            )
                            &&& final(handles)@ == old(handles)@.insert(handle, prover_after(p, m))
                        },
                    },
                }
            }
        },
{
    let mut proof = handles.get_cloned(handle)?;
    assert(old(handles)@.contains_key(handle));
    if !proof.progressable_by_message() {
        return Ok((proof.get_state().to_u32(), None));
    }
    let mut consumed: Option<String> = None;
    match message {
        Some(m) => {
            proof.process_aries_msg(m);
        },
        None => {
            match prover_find_message_to_handle(&proof, pending) {
                Some((uid, m)) => {
                    proof.process_aries_msg(m);
                    consumed = Some(uid);
                },
                None => {
                    return Ok((proof.get_state().to_u32(), None));
                },
            }
        },
    }
    let state = proof.get_state().to_u32();
    let _ = handles.insert(handle, proof);
    proof {
        assert forall|k: u32| #[trigger] final(handles)@.contains_key(k) implies final(handles)@[k].wf() by {
            if k != handle {
                assert(old(handles)@.contains_key(k));
            }
        }
    }
    Ok((state, consumed))
}

/// Removes the session under `handle`.
pub fn release(handles: &mut HandleCache<Prover>, handle: u32) -> (r: Result<(), ErrorKind>)
    requires
        provers_wf(*old(handles)),
    ensures
        provers_wf(*final(handles)),
        final(handles).next_handle() == old(handles).next_handle(),
        old(handles)@.contains_key(handle) ==> r is Ok && final(handles)@ == old(handles)@.remove(
            handle,
        ),
        !old(handles)@.contains_key(handle) ==> r == Err::<(), ErrorKind>(
            ErrorKind::InvalidDisclosedProofHandle,
        ) && final(handles)@ == old(handles)@,
{
    match handles.release(handle) {
        Ok(()) => Ok(()),
        Err(_) => Err(ErrorKind::InvalidDisclosedProofHandle),
    }
}

/// Removes every session.
pub fn release_all(handles: &mut HandleCache<Prover>)
    requires
        provers_wf(*old(handles)),
    ensures
        provers_wf(*final(handles)),
        final(handles).next_handle() == old(handles).next_handle(),
        final(handles)@ == Map::<u32, Prover>::empty(),
{
    handles.drain();
}

/// The presentation built by the session under `handle`.
pub fn get_presentation_msg(handles: &HandleCache<Prover>, handle: u32) -> (r: Result<
    AriesMessage,
    ErrorKind,
>)
    requires
        provers_wf(*handles),
    ensures
        !handles@.contains_key(handle) ==> r == Err::<AriesMessage, ErrorKind>(
            ErrorKind::InvalidHandle,
        ),
        handles@.contains_key(handle) ==> match handles@[handle].presentation {
            Some(m) => r == Ok::<AriesMessage, ErrorKind>(m),
            None => r == Err::<AriesMessage, ErrorKind>(ErrorKind::InvalidState),
        },
{
    let p = handles.get(handle)?;
    p.get_presentation_msg()
}

/// Rejection messages are not built on their own for these sessions.
pub fn generate_reject_proof_msg(_handle: u32) -> (r: Result<String, ErrorKind>)
    ensures
        r == Err::<String, ErrorKind>(ErrorKind::ActionNotSupported),
{
    Err(ErrorKind::ActionNotSupported)
}

/// The request data of the session under `handle`.
pub fn get_proof_request_data(handles: &HandleCache<Prover>, handle: u32) -> (r: Result<
    String,
    ErrorKind,
>)
    requires
        provers_wf(*handles),
    ensures
        !handles@.contains_key(handle) ==> r == Err::<String, ErrorKind>(
            ErrorKind::InvalidHandle,
        ),
        handles@.contains_key(handle) ==> match handles@[handle].request {
            Some(m) => r == Ok::<String, ErrorKind>(m.content),
            None => r == Err::<String, ErrorKind>(ErrorKind::InvalidState),
        },
{
    let p = handles.get(handle)?;
    p.presentation_request_data()
}

/// The attachment of the request held by the session under `handle`.
pub fn get_proof_request_attachment(handles: &HandleCache<Prover>, handle: u32) -> (r: Result<
    String,
    ErrorKind,
>)
    requires
        provers_wf(*handles),
    ensures
        !handles@.contains_key(handle) ==> r == Err::<String, ErrorKind>(
            ErrorKind::InvalidHandle,
        ),
        handles@.contains_key(handle) ==> match handles@[handle].request {
            Some(m) => r == Ok::<String, ErrorKind>(m.content),
            None => r == Err::<String, ErrorKind>(ErrorKind::InvalidState),
        },
{
    let p = handles.get(handle)?;
    match &p.request {
        Some(m) => Ok(m.content.clone()),
        None => Err(ErrorKind::InvalidState),
    }
}

pub fn is_valid_handle(handles: &HandleCache<Prover>, handle: u32) -> (r: bool)
    requires
        provers_wf(*handles),
    ensures
        r == handles@.contains_key(handle),
{
    handles.has_handle(handle)
}

/// The thread id of the session under `handle`.
pub fn get_thread_id(handles: &HandleCache<Prover>, handle: u32) -> (r: Result<String, ErrorKind>)
    requires
        provers_wf(*handles),
    ensures
        !handles@.contains_key(handle) ==> r == Err::<String, ErrorKind>(
            ErrorKind::InvalidHandle,
        ),
        handles@.contains_key(handle) ==> r == Ok::<String, ErrorKind>(handles@[handle].thread_id),
{
    let p = handles.get(handle)?;
    Ok(p.get_thread_id())
}

/// The source id of the session under `handle`.
pub fn get_source_id(handles: &HandleCache<Prover>, handle: u32) -> (r: Result<String, ErrorKind>)
    requires
        provers_wf(*handles),
    ensures
        !handles@.contains_key(handle) ==> r == Err::<String, ErrorKind>(
            ErrorKind::InvalidProofHandle,
        ),
        handles@.contains_key(handle) ==> r == Ok::<String, ErrorKind>(handles@[handle].source_id),
{
    match handles.get(handle) {
        Ok(p) => Ok(p.get_source_id()),
        Err(_) => Err(ErrorKind::InvalidProofHandle),
    }
}

/// The presentation status code of the session under `handle`.
pub fn get_presentation_status(handles: &HandleCache<Prover>, handle: u32) -> (r: Result<
    u32,
    ErrorKind,
>)
    requires
        provers_wf(*handles),
    ensures
        !handles@.contains_key(handle) ==> r == Err::<u32, ErrorKind>(ErrorKind::InvalidHandle),
        handles@.contains_key(handle) ==> r == Ok::<u32, ErrorKind>(
            prover_status_code(handles@[handle].state),
        ),
{
    let p = handles.get(handle)?;
    Ok(p.presentation_status())
}


/// Takes what the credential system built for the session under `handle`:
/// the presentation's content, or the error that stopped it.
pub fn generate_proof(
    handles: &mut HandleCache<Prover>,
    handle: u32,
    outcome: Result<String, ErrorKind>,
) -> (r: Result<(), ErrorKind>)
    requires
        provers_wf(*old(handles)),
    ensures
        provers_wf(*final(handles)),
        final(handles).next_handle() == old(handles).next_handle(),
        r is Err ==> final(handles)@ == old(handles)@,
        !old(handles)@.contains_key(handle) ==> r == Err::<(), ErrorKind>(ErrorKind::InvalidHandle),
        old(handles)@.contains_key(handle) ==> {
            let p = old(handles)@[handle];
            if p.state != ProverState::PresentationRequestReceived {
                r == Err::<(), ErrorKind>(ErrorKind::InvalidState)
            } else {
                match outcome {
                    Err(e) => r == Err::<(), ErrorKind>(e),
                    Ok(content) => {
                        &&& r is Ok
                        &&& final(handles)@.dom() == old(handles)@.dom()
                        &&& final(handles)@[handle].state == ProverState::PresentationPrepared
                        &&& final(handles)@[handle].presentation matches Some(m) && m.kind
                            == MessageKind::Presentation && m.content == content
                            && m.thread_id == Some(p.thread_id)
                        &&& final(handles)@[handle].thread_id == p.thread_id
                        &&& final(handles)@[handle].request == p.request
                        &&& final(handles)@.remove(handle) == old(handles)@.remove(handle)
                    },
                }
            }
        },
{
    let mut proof = handles.get_cloned(handle)?;
    proof.generate_presentation(outcome)?;
    let _ = handles.insert(handle, proof);
    proof {
        assert forall|k: u32| #[trigger] final(handles)@.contains_key(k) implies final(handles)@[k].wf() by {
            if k != handle {
                assert(old(handles)@.contains_key(k));
            }
        }
        assert(final(handles)@.dom() =~= old(handles)@.dom());
        assert(final(handles)@.remove(handle) =~= old(handles)@.remove(handle));
    }
    Ok(())
}

/// Sends the presentation of the session under `handle` through `send`,
/// and records it as sent once `send` has succeeded.
pub fn send_proof<F>(handles: &mut HandleCache<Prover>, handle: u32, send: F) -> (r: Result<
    (),
    ErrorKind,
>) where F: FnOnce(AriesMessage) -> Result<(), ErrorKind>
    requires
        provers_wf(*old(handles)),
        forall|m: AriesMessage| send.requires((m,)),
    ensures
        provers_wf(*final(handles)),
        final(handles).next_handle() == old(handles).next_handle(),
        r is Err ==> final(handles)@ == old(handles)@,
        !old(handles)@.contains_key(handle) ==> r == Err::<(), ErrorKind>(ErrorKind::InvalidHandle),
        old(handles)@.contains_key(handle) ==> {
            let p = old(handles)@[handle];
            if p.state != ProverState::PresentationPrepared {
                r == Err::<(), ErrorKind>(ErrorKind::InvalidState)
            } else {
                &&& send.ensures((p.presentation->Some_0,), r)
                &&& r is Ok ==> final(handles)@ == old(handles)@.insert(
                    handle,
                    Prover { state: ProverState::PresentationSent, ..p },
                )
            }
        },
{
    let mut proof = handles.get_cloned(handle)?;
    let message = proof.mark_presentation_sent()?;
    send(message)?;
    let _ = handles.insert(handle, proof);
    proof {
        assert forall|k: u32| #[trigger] final(handles)@.contains_key(k) implies final(handles)@[k].wf() by {
            if k != handle {
                assert(old(handles)@.contains_key(k));
            }
        }
    }
    Ok(())
}

/// Declines the request of the session under `handle`, sending the
/// counter-proposal or problem report through `send`; the session is
/// recorded as declined once `send` has succeeded.
pub fn decline_presentation_request<F>(
    handles: &mut HandleCache<Prover>,
    handle: u32,
    reason: Option<String>,
    proposal: Option<String>,
    send: F,
) -> (r: Result<(), ErrorKind>) where F: FnOnce(AriesMessage) -> Result<(), ErrorKind>
    requires
        provers_wf(*old(handles)),
        forall|m: AriesMessage| send.requires((m,)),
    ensures
        provers_wf(*final(handles)),
        final(handles).next_handle() == old(handles).next_handle(),
        r is Err ==> final(handles)@ == old(handles)@,
        !old(handles)@.contains_key(handle) ==> r == Err::<(), ErrorKind>(ErrorKind::InvalidHandle),
        old(handles)@.contains_key(handle) ==> {
            let p = old(handles)@[handle];
            if !prover_may_decline(p.state) {
                r == Err::<(), ErrorKind>(ErrorKind::InvalidState)
            } else {
                &&& exists|m: AriesMessage|
                    is_decline_message(m, p.thread_id, reason, proposal) && send.ensures((m,), r)
                &&& r is Ok ==> final(handles)@ == old(handles)@.insert(
                    handle,
                    Prover { state: ProverState::Declined, ..p },
                )
            }
        },
{
    let mut proof = handles.get_cloned(handle)?;
    let message = proof.decline_presentation_request(reason, proposal)?;
    let ghost sent = message;
    let res = send(message);
    assert(send.ensures((sent,), res));
    res?;
    let _ = handles.insert(handle, proof);
    proof {
        assert forall|k: u32| #[trigger] final(handles)@.contains_key(k) implies final(handles)@[k].wf() by {
            if k != handle {
                assert(old(handles)@.contains_key(k));
            }
        }
    }
    Ok(())
}

/// Declines the request of the session under `handle` with the reason
/// "Presentation Request was rejected".
pub fn reject_proof<F>(handles: &mut HandleCache<Prover>, handle: u32, send: F) -> (r: Result<
    (),
    ErrorKind,
>) where F: FnOnce(AriesMessage) -> Result<(), ErrorKind>
    requires
        provers_wf(*old(handles)),
        forall|m: AriesMessage| send.requires((m,)),
    ensures
        provers_wf(*final(handles)),
        final(handles).next_handle() == old(handles).next_handle(),
        r is Err ==> final(handles)@ == old(handles)@,
        !old(handles)@.contains_key(handle) ==> r == Err::<(), ErrorKind>(ErrorKind::InvalidHandle),
        old(handles)@.contains_key(handle) ==> {
            let p = old(handles)@[handle];
            if !prover_may_decline(p.state) {
                r == Err::<(), ErrorKind>(ErrorKind::InvalidState)
            } else {
                &&& exists|m: AriesMessage|
                    m.kind == MessageKind::PresentationProblemReport && m.thread_id == Some(
                        p.thread_id,
                    ) && m.content@ == "Presentation Request was rejected"@ && send.ensures(
                        (m,),
                        r,
                    )
                &&& r is Ok ==> final(handles)@ == old(handles)@.insert(
                    handle,
                    Prover { state: ProverState::Declined, ..p },
                )
            }
        },
{
    let reason = String::from_str("Presentation Request was rejected");
    decline_presentation_request(handles, handle, Some(reason), None, send)
}

/// The requests, in pool order, among pending messages.
pub open spec fn requests_in(pool: Seq<(String, AriesMessage)>) -> Seq<AriesMessage>
    decreases pool.len(),
{
    if pool.len() == 0 {
        Seq::empty()
    } else if pool.last().1.kind == MessageKind::RequestPresentation {
        requests_in(pool.drop_last()).push(pool.last().1)
    } else {
        requests_in(pool.drop_last())
    }
}

/// The presentation requests among pending messages.
pub fn get_proof_request_messages(pending: &Vec<(String, AriesMessage)>) -> (r: Vec<AriesMessage>)
    ensures
        r@ == requests_in(pending@),
{
    let mut out: Vec<AriesMessage> = Vec::new();
    let mut i: usize = 0;
    while i < pending.len()
        invariant
            i <= pending@.len(),
            out@ == requests_in(pending@.take(i as int)),
        decreases pending@.len() - i,
    {
        assert(pending@.take(i + 1).drop_last() =~= pending@.take(i as int));
        if pending[i].1.kind == MessageKind::RequestPresentation {
            out.push(pending[i].1.duplicate());
        }
        i = i + 1;
    }
    assert(pending@.take(i as int) =~= pending@);
    out
}


/// A prover session as it is persisted: a version tag and the session.
#[derive(Clone, Debug)]
pub struct DisclosedProofs {
    pub version: String,
    pub data: Prover,
}

/// The version tag that persisted prover sessions carry.
pub open spec fn snapshot_version() -> Seq<char> {
    "2.0"@
}

/// The session that a persisted form restores to, if it is accepted: it must
/// carry the current version tag and hold a well-formed session.
pub open spec fn restored(s: DisclosedProofs) -> Option<Prover> {
    if s.version@ == snapshot_version() && s.data.wf() {
        Some(s.data)
    } else {
        None
    }
}

/// The persisted form of the session under `handle`.
pub fn snapshot(handles: &HandleCache<Prover>, handle: u32) -> (r: Result<DisclosedProofs, ErrorKind>)
    requires
        provers_wf(*handles),
    ensures
        !handles@.contains_key(handle) ==> r == Err::<DisclosedProofs, ErrorKind>(
            ErrorKind::InvalidHandle,
        ),
        handles@.contains_key(handle) ==> (r matches Ok(s) && s.data == handles@[handle]
            && s.version@ == snapshot_version()),
{
    let p = handles.get(handle)?;
    Ok(DisclosedProofs { version: String::from_str("2.0"), data: p.duplicate() })
}

/// Stores a persisted session under a fresh handle.
pub fn from_snapshot(handles: &mut HandleCache<Prover>, s: DisclosedProofs) -> (r: Result<
    u32,
    ErrorKind,
>)
    requires
        provers_wf(*old(handles)),
    ensures
        provers_wf(*final(handles)),
        restored(s) is None ==> r == Err::<u32, ErrorKind>(ErrorKind::InvalidJson),
        restored(s) is Some ==> (r is Ok <==> old(handles).next_handle() < u32::MAX),
        r is Err ==> *final(handles) == *old(handles),
        r matches Ok(h) ==> {
            &&& h == old(handles).next_handle()
            &&& final(handles).next_handle() == h + 1
            &&& !old(handles)@.contains_key(h)
            &&& final(handles)@ == old(handles)@.insert(h, s.data)
        },
{
    let tag = String::from_str("2.0");
    if !s.version.eq(&tag) || !s.data.is_well_formed() {
        return Err(ErrorKind::InvalidJson);
    }
    let r = handles.add(s.data);
    proof {
        if let Ok(h) = r {
            assert forall|k: u32| #[trigger] final(handles)@.contains_key(k) implies final(handles)@[k].wf() by {
                if k != h {
                    assert(old(handles)@.contains_key(k));
                }
            }
        }
    }
    r
}

} // verus!
