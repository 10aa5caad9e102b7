//! Verifier sessions keyed by thread id, each bound to the connection that
//! carries its messages.
use vstd::prelude::*;

use crate::error::ErrorKind;
use crate::matcher::{verifier_find_message_to_handle, verifier_select};
use crate::messages::{request_thread, AriesMessage, MessageKind};
use crate::registry::{Duplicate, ObjectCache};
use crate::verification::{verifier_after, PresentationVerificationStatus, Verifier, VerifierState};

verus! {

/// A verifier together with the id of its connection.
#[derive(Clone, Debug)]
pub struct VerifierWrapper {
    pub verifier: Verifier,
    pub connection_id: String,
}

impl VerifierWrapper {
    pub fn new(verifier: Verifier, connection_id: &str) -> (r: VerifierWrapper)
        ensures
            r.verifier == verifier,
            r.connection_id@ == connection_id@,
    {
        VerifierWrapper { verifier, connection_id: String::from_str(connection_id) }
    }
}

impl Duplicate for VerifierWrapper {
    fn duplicate(&self) -> (r: VerifierWrapper) {
        VerifierWrapper {
            verifier: self.verifier.duplicate(),
            connection_id: self.connection_id.clone(),
        }
    }
}

/// The verifier sessions of one agent. Each operation reads a session,
/// works on a copy, hands any outbound message to the transport callback,
/// and writes the copy back only once that has succeeded.
pub struct ServiceVerifier {
    verifiers: ObjectCache<String, VerifierWrapper>,
}

impl View for ServiceVerifier {
    type V = Map<Seq<char>, VerifierWrapper>;

    closed spec fn view(&self) -> Map<Seq<char>, VerifierWrapper> {
        self.verifiers@
    }
}

impl ServiceVerifier {
    /// The registry underneath keeps its own invariant.
    pub closed spec fn registry_wf(&self) -> bool {
        self.verifiers.wf()
    }

    /// Every session held is well formed and is stored under its own thread.
    pub open spec fn wf(&self) -> bool {
        &&& self.registry_wf()
        &&& forall|k: Seq<char>| #[trigger]
            self@.contains_key(k) ==> self@[k].verifier.wf() && self@[k].verifier.thread_id@ == k
    }

    pub fn new() -> (r: ServiceVerifier)
        ensures
            r.wf(),
            r@ == Map::<Seq<char>, VerifierWrapper>::empty(),
    {
        ServiceVerifier { verifiers: ObjectCache::new() }
    }

    /// Opens a verifier session on `connection_id`: a fresh request, or one
    /// that answers `proposal`. The request message goes out through
    /// `send`; the session is stored under its thread id, which is returned,
    /// once `send` has succeeded.
    pub fn send_proof_request<F>(
        &mut self,
        connection_id: &str,
        request: String,
        proposal: Option<AriesMessage>,
        send: F,
    ) -> (r: Result<String, ErrorKind>) where F: FnOnce(AriesMessage) -> Result<(), ErrorKind>
        requires
            old(self).wf(),
            forall|m: AriesMessage| send.requires((m,)),
        ensures
            final(self).wf(),
            r is Err ==> final(self)@ == old(self)@,
            (proposal matches Some(p) && p.kind != MessageKind::ProposePresentation) ==> r == Err::<
                String,
                ErrorKind,
            >(ErrorKind::InvalidMessages),
            (proposal matches Some(p) ==> p.kind == MessageKind::ProposePresentation) ==> exists|
                m: AriesMessage,
                res: Result<(), ErrorKind>,
            |
                {
                    &&& send.ensures((m,), res)
                    &&& m.kind == MessageKind::RequestPresentation
                    &&& m.content == request
                    &&& (proposal matches Some(p) ==> request_thread(m) == request_thread(p))
                    &&& match res {
                        Err(e) => r == Err::<String, ErrorKind>(e),
                        Ok(_) => r matches Ok(tid) && tid@ == request_thread(m)
                            && final(self)@[tid@].verifier.thread_id@ == tid@ && final(self)@.dom()
                            == old(self)@.dom().insert(tid@) && final(self)@.remove(tid@)
                            == old(self)@.remove(tid@) && final(self)@[tid@].connection_id@
                            == connection_id@ && final(self)@[tid@].verifier.state
                            == VerifierState::RequestSent && final(self)@[tid@].verifier.status
                            == PresentationVerificationStatus::Unverified
                            && final(self)@[tid@].verifier.request_data == request,
                    }
                },
    {
        let mut verifier = match &proposal {
            Some(p) => Verifier::create_from_proposal("", p, request)?,
            None => Verifier::create_from_request(String::new(), request),
        };
        let message = match verifier.mark_presentation_request_sent() {
            Ok(m) => m,
            Err(e) => {
                return Err(e);
            },
        };
        let ghost sent = message;
        let res = send(message);
        assert(send.ensures((sent,), res));
        match res {
            Err(e) => Err(e),
            Ok(()) => {
                let tid = verifier.get_thread_id();
                let key = self.verifiers.insert(&tid, VerifierWrapper::new(verifier, connection_id));
                proof {
                    assert forall|k: Seq<char>| #[trigger] self.verifiers@.contains_key(k) implies
                        self.verifiers@[k].verifier.wf() && self.verifiers@[k].verifier.thread_id@ == k by {
                        if k != tid@ {
                            assert(old(self).verifiers@.contains_key(k));
                        }
                    }
                    assert(self.verifiers@.dom() =~= old(self).verifiers@.dom().insert(tid@));
                    assert(self.verifiers@.remove(tid@) =~= old(self).verifiers@.remove(tid@));
                }
                Ok(key)
            },
        }
    }

    /// The verification status of the session on `thread_id`.
    pub fn get_presentation_status(&self, thread_id: &str) -> (r: Result<
        PresentationVerificationStatus,
        ErrorKind,
    >)
        requires
            self.wf(),
        ensures
            self@.contains_key(thread_id@) ==> r == Ok::<
                PresentationVerificationStatus,
                ErrorKind,
            >(self@[thread_id@].verifier.status),
            !self@.contains_key(thread_id@) ==> r == Err::<
                PresentationVerificationStatus,
                ErrorKind,
            >(ErrorKind::NotFound),
    {
        let key = String::from_str(thread_id);
        let w = self.verifiers.get(&key)?;
        Ok(w.verifier.get_verification_status())
    }

    /// The proof request of the session on `thread_id`, as the credential
    /// system reads it when it checks a presentation.
    pub fn get_request_data(&self, thread_id: &str) -> (r: Result<String, ErrorKind>)
        requires
            self.wf(),
        ensures
            self@.contains_key(thread_id@) ==> r == Ok::<String, ErrorKind>(
                self@[thread_id@].verifier.request_data,
            ),
            !self@.contains_key(thread_id@) ==> r == Err::<String, ErrorKind>(ErrorKind::NotFound),
    {
        let key = String::from_str(thread_id);
        let w = self.verifiers.get(&key)?;
        Ok(w.verifier.request_data.clone())
    }

    /// Settles a presentation for the session on `thread_id`, given the
    /// credential system's verdict on its proof (see
    /// `Verifier::verify_presentation`). The reply goes out through `send`;
    /// the settled session is written back once `send` has succeeded.
    pub fn verify_presentation<F>(
        &mut self,
        thread_id: &str,
        presentation: AriesMessage,
        outcome: Result<bool, ErrorKind>,
        send: F,
    ) -> (r: Result<(), ErrorKind>) where F: FnOnce(AriesMessage) -> Result<(), ErrorKind>
        requires
            old(self).wf(),
            forall|m: AriesMessage| send.requires((m,)),
        ensures
            final(self).wf(),
            r is Err ==> final(self)@ == old(self)@,
            !old(self)@.contains_key(thread_id@) ==> r == Err::<(), ErrorKind>(ErrorKind::NotFound),
            old(self)@.contains_key(thread_id@) ==> {
                let w = old(self)@[thread_id@];
                let v = w.verifier;
                if v.state != VerifierState::RequestSent {
                    r == Err::<(), ErrorKind>(ErrorKind::InvalidState)
                } else if presentation.kind != MessageKind::Presentation || !(
                presentation.thread_id matches Some(t) && t@ == v.thread_id@) {
                    r == Err::<(), ErrorKind>(ErrorKind::InvalidMessages)
                } else {
                    match outcome {
                        Err(e) => r == Err::<(), ErrorKind>(e),
                        Ok(valid) => {
                            let settled = Verifier {
                                state: VerifierState::Finished,
                                status: if valid {
                                    PresentationVerificationStatus::Valid
                                } else {
                                    PresentationVerificationStatus::Invalid
                                },
                                presentation: Some(presentation),
                                ..v
                            };
                            exists|m: AriesMessage|
                                {
                                    &&& send.ensures((m,), r)
                                    &&& m.thread_id == Some(v.thread_id)
                                    &&& m.kind == (if valid {
                                        MessageKind::PresentationAck
                                    } else {
                                        MessageKind::PresentationProblemReport
                                    })
                                    &&& r is Ok ==> final(self)@ == old(self)@.insert(
                                        thread_id@,
                                        VerifierWrapper { verifier: settled, ..w },
                                    )
                                }
                        },
                    }
                }
            },
    {
        let key = String::from_str(thread_id);
        let VerifierWrapper { mut verifier, connection_id } = self.verifiers.get_cloned(&key)?;
        let message = verifier.verify_presentation(presentation, outcome)?;
        let ghost sent = message;
        let res = send(message);
        assert(send.ensures((sent,), res));
        res?;
        self.verifiers.insert(&key, VerifierWrapper { verifier, connection_id });
        proof {
            assert forall|k: Seq<char>| #[trigger] self.verifiers@.contains_key(k) implies
                self.verifiers@[k].verifier.wf() && self.verifiers@[k].verifier.thread_id@ == k by {
                if k != key@ {
                    assert(old(self).verifiers@.contains_key(k));
                }
            }
        }
        Ok(())
    }

    /// Advances the session on `thread_id` by an explicit message, or else
    /// by the first pending message that the matcher selects. Returns the
    /// new state and the transport id of the pending message consumed, if
    /// any; where nothing qualifies the session is left as it was.
    pub fn update_state(
        &mut self,
        thread_id: &str,
        message: Option<AriesMessage>,
        pending: Vec<(String, AriesMessage)>,
    ) -> (r: Result<(VerifierState, Option<String>), ErrorKind>)
        requires
            old(self).wf(),
        ensures
            final(self).wf(),
            !old(self)@.contains_key(thread_id@) ==> r == Err::<
                (VerifierState, Option<String>),
                ErrorKind,
            >(ErrorKind::NotFound) && final(self)@ == old(self)@,
            old(self)@.contains_key(thread_id@) ==> {
                let w = old(self)@[thread_id@];
                let v = w.verifier;
                match message {
                    Some(m) => {
                        &&& r == Ok::<(VerifierState, Option<String>), ErrorKind>(
                            (verifier_after(v, m).state, None),
                        )
                        &&& final(self)@ == old(self)@.insert(
                            thread_id@,
                            VerifierWrapper { verifier: verifier_after(v, m), ..w },
                        )
                    },
                    None => match verifier_select(v.state, v.thread_id@, pending@) {
                        None => {
                            &&& r == Ok::<(VerifierState, Option<String>), ErrorKind>(
                                (v.state, None),
                            )
                            &&& final(self)@ == old(self)@
                        },
                        Some((uid, m)) => {
                            &&& r == Ok::<(VerifierState, Option<String>), ErrorKind>(
                                (verifier_after(v, m).state, Some(uid)),
                            )
                            &&& final(self)@ == old(self)@.insert(
                                thread_id@,
                                VerifierWrapper { verifier: verifier_after(v, m), ..w },
                            )
                        },
                    },
                }
            },
    {
        let key = String::from_str(thread_id);
        let VerifierWrapper { mut verifier, connection_id } = self.verifiers.get_cloned(&key)?;
        let mut consumed: Option<String> = None;
        match message {
            Some(m) => {
                verifier.process_aries_msg(m);
            },
            None => match verifier_find_message_to_handle(&verifier, pending) {
                Some((uid, m)) => {
                    verifier.process_aries_msg(m);
                    consumed = Some(uid);
                },
                None => {
                    return Ok((verifier.get_state(), None));
                },
            },
        }
        let state = verifier.get_state();
        self.verifiers.insert(&key, VerifierWrapper { verifier, connection_id });
        proof {
            assert forall|k: Seq<char>| #[trigger] self.verifiers@.contains_key(k) implies
                self.verifiers@[k].verifier.wf() && self.verifiers@[k].verifier.thread_id@ == k by {
                if k != key@ {
                    assert(old(self).verifiers@.contains_key(k));
                }
            }
        }
        Ok((state, consumed))
    }

    /// The state of the session on `thread_id`.
    pub fn get_state(&self, thread_id: &str) -> (r: Result<VerifierState, ErrorKind>)
        requires
            self.wf(),
        ensures
            self@.contains_key(thread_id@) ==> r == Ok::<VerifierState, ErrorKind>(
                self@[thread_id@].verifier.state,
            ),
            !self@.contains_key(thread_id@) ==> r == Err::<VerifierState, ErrorKind>(
                ErrorKind::NotFound,
            ),
    {
        let key = String::from_str(thread_id);
        let w = self.verifiers.get(&key)?;
        Ok(w.verifier.get_state())
    }

    pub fn exists_by_id(&self, thread_id: &str) -> (r: bool)
        requires
            self.wf(),
        ensures
            r == self@.contains_key(thread_id@),
    {
        let key = String::from_str(thread_id);
        self.verifiers.contains_key(&key)
    }
}

} // verus!
