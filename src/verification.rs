//! The checking side of a presentation exchange.
use vstd::prelude::*;

use crate::error::ErrorKind;
use crate::ids::fresh_id;
use crate::ids::uuid_char_at;
use crate::registry::Duplicate;
use crate::messages::{
    is_problem_report, is_problem_report_kind, refers_to, request_thread, thread_matches,
    AriesMessage, MessageKind,
};

verus! {

/// Where the checking side of a presentation exchange stands.
#[derive(Clone, Copy, Debug, PartialEq, Eq, Structural)]
pub enum VerifierState {
    RequestSet,
    RequestSent,
    /// A presentation has come and awaits its verdict. No transition of
    /// this library stops here: `verify_presentation` settles a presentation
    /// from `RequestSent` in one step.
    PresentationReceived,
    Finished,
    Failed,
}

/// The outcome of checking a presentation, set once by `verify_presentation`.
#[derive(Clone, Copy, Debug, PartialEq, Eq, Structural)]
pub enum PresentationVerificationStatus {
    Unverified,
    Valid,
    Invalid,
}

/// The checking side of one presentation exchange.
#[derive(Clone, Debug)]
pub struct Verifier {
    pub source_id: String,
    pub thread_id: String,
    pub state: VerifierState,
    /// The proof request, as the credential system reads it.
    pub request_data: String,
    /// The proposal that this request answers, if any.
    pub proposal: Option<AriesMessage>,
    /// The presentation received, once it has come.
    pub presentation: Option<AriesMessage>,
    pub status: PresentationVerificationStatus,
}

/// The verifier after an inbound message: while the request is out, a
/// problem report fails the exchange; any other message leaves it as it
/// was (a presentation is settled by `verify_presentation` instead).
pub open spec fn verifier_after(v: Verifier, m: AriesMessage) -> Verifier {
    if v.state == VerifierState::RequestSent && is_problem_report(m.kind) {
        Verifier { state: VerifierState::Failed, ..v }
    } else {
        v
    }
}

impl Verifier {
    /// The status is set exactly when the exchange is finished, and a
    /// presentation is held from the moment one is received.
    pub open spec fn wf(&self) -> bool {
        &&& (self.status != PresentationVerificationStatus::Unverified) == (self.state
            == VerifierState::Finished)
        &&& (self.state == VerifierState::PresentationReceived || self.state
            == VerifierState::Finished) ==> self.presentation is Some
    }


    /// A verifier with a request to send; its thread is the id of the
    /// request message, drawn fresh.
    pub fn create_from_request(source_id: String, request_data: String) -> (r: Verifier)
        ensures
            r.wf(),
            r.state == VerifierState::RequestSet,
            r.status == PresentationVerificationStatus::Unverified,
            r.source_id == source_id,
            r.request_data == request_data,
            r.thread_id@.len() == 36,
            forall|i: int| 0 <= i < 36 ==> uuid_char_at(#[trigger] r.thread_id@[i], i),
            r.proposal is None,
            r.presentation is None,
    {
        Verifier {
            source_id,
            thread_id: fresh_id(),
            state: VerifierState::RequestSet,
            request_data,
            proposal: None,
            presentation: None,
            status: PresentationVerificationStatus::Unverified,
        }
    }

    /// A verifier that answers a prover's proposal with a request, on the
    /// proposal's thread.
    pub fn create_from_proposal(source_id: &str, proposal: &AriesMessage, request_data: String) -> (r:
        Result<Verifier, ErrorKind>)
        ensures
            proposal.kind == MessageKind::ProposePresentation <==> r is Ok,
            r matches Err(e) ==> e == ErrorKind::InvalidMessages,
            r matches Ok(v) ==> {
                &&& v.wf()
                &&& v.state == VerifierState::RequestSet
                &&& v.status == PresentationVerificationStatus::Unverified
                &&& v.source_id@ == source_id@
                &&& v.thread_id@ == request_thread(*proposal)
                &&& v.request_data == request_data
                &&& v.proposal == Some(*proposal)
                &&& v.presentation is None
            },
    {
        if proposal.kind != MessageKind::ProposePresentation {
            return Err(ErrorKind::InvalidMessages);
        }
        let thread_id = match &proposal.thread_id {
            Some(t) => t.clone(),
            None => proposal.id.clone(),
        };
        Ok(Verifier {
            source_id: String::from_str(source_id),
            thread_id,
            state: VerifierState::RequestSet,
            request_data,
            proposal: Some(proposal.duplicate()),
            presentation: None,
            status: PresentationVerificationStatus::Unverified,
        })
    }

    pub fn get_state(&self) -> (r: VerifierState)
        ensures
            r == self.state,
    {
        self.state
    }

    pub fn get_verification_status(&self) -> (r: PresentationVerificationStatus)
        ensures
            r == self.status,
    {
        self.status
    }

    pub fn get_thread_id(&self) -> (r: String)
        ensures
            r == self.thread_id,
    {
        self.thread_id.clone()
    }

    /// The request message to send. A fresh request is its own thread's
    /// first message, so its id is the thread id; one that answers a
    /// proposal refers to the proposal's thread.
    pub fn mark_presentation_request_sent(&mut self) -> (r: Result<AriesMessage, ErrorKind>)
        requires
            old(self).wf(),
        ensures
            final(self).wf(),
            old(self).state == VerifierState::RequestSet <==> r is Ok,
            r matches Err(e) ==> e == ErrorKind::InvalidState && *final(self) == *old(self),
            r matches Ok(m) ==> {
                &&& *final(self) == (Verifier { state: VerifierState::RequestSent, ..*old(self) })
                &&& m.kind == MessageKind::RequestPresentation
                &&& m.content == old(self).request_data
                &&& request_thread(m) == old(self).thread_id@
                &&& (old(self).proposal is None ==> m.id == old(self).thread_id && m.thread_id is None)
            },
    {
        if self.state != VerifierState::RequestSet {
            return Err(ErrorKind::InvalidState);
        }
        let msg = match &self.proposal {
            None => AriesMessage {
                kind: MessageKind::RequestPresentation,
                id: self.thread_id.clone(),
                thread_id: None,
                content: self.request_data.clone(),
            },
            Some(_) => AriesMessage {
                kind: MessageKind::RequestPresentation,
                id: fresh_id(),
                thread_id: Some(self.thread_id.clone()),
                content: self.request_data.clone(),
            },
        };
        self.state = VerifierState::RequestSent;
        Ok(msg)
    }

    /// Feeds an inbound message to the verifier while it waits for the
    /// presentation: a problem report ends the exchange as failed. It
    /// returns whether the message advanced it; one that does not leaves it
    /// as it was.
    pub fn process_aries_msg(&mut self, msg: AriesMessage) -> (r: bool)
        requires
            old(self).wf(),
        ensures
            final(self).wf(),
            r == (old(self).state == VerifierState::RequestSent && is_problem_report(msg.kind)),
            *final(self) == verifier_after(*old(self), msg),
    {
        if self.state == VerifierState::RequestSent && is_problem_report_kind(msg.kind) {
            self.state = VerifierState::Failed;
            true
        } else {
            false
        }
    }

    /// Settles a presentation on this verifier's thread, legal only while the
    /// request is out, given what the
    /// credential system found of its proof: `Ok(true)` for a valid proof,
    /// `Ok(false)` for an invalid one, or the error that kept it from
    /// checking. Either verdict finishes the exchange and is answered with
    /// an acknowledgement or a problem report; an error changes nothing.
    pub fn verify_presentation(
        &mut self,
        presentation: AriesMessage,
        outcome: Result<bool, ErrorKind>,
    ) -> (r: Result<AriesMessage, ErrorKind>)
        requires
            old(self).wf(),
        ensures
            final(self).wf(),
            r is Err ==> *final(self) == *old(self),
            old(self).state != VerifierState::RequestSent ==> r == Err::<AriesMessage, ErrorKind>(
                ErrorKind::InvalidState,
            ),
            old(self).state == VerifierState::RequestSent ==> {
                if presentation.kind != MessageKind::Presentation || !refers_to(
                    presentation.thread_id,
                    old(self).thread_id@,
                    true,
                ) {
                    r == Err::<AriesMessage, ErrorKind>(ErrorKind::InvalidMessages)
                } else {
                    match outcome {
                        Err(e) => r == Err::<AriesMessage, ErrorKind>(e),
                        Ok(valid) => {
                            &&& *final(self) == (Verifier {
                                state: VerifierState::Finished,
                                status: if valid {
                                    PresentationVerificationStatus::Valid
                                } else {
                                    PresentationVerificationStatus::Invalid
                                },
                                presentation: Some(presentation),
                                ..*old(self)
                            })
                            &&& r matches Ok(m) && m.thread_id == Some(old(self).thread_id)
                                && m.kind == (if valid {
                                MessageKind::PresentationAck
                            } else {
                                MessageKind::PresentationProblemReport
                            })
                        },
                    }
                }
            },
    {
        if self.state != VerifierState::RequestSent {
            return Err(ErrorKind::InvalidState);
        }
        if presentation.kind != MessageKind::Presentation || !thread_matches(
            &presentation.thread_id,
            &self.thread_id,
            true,
        ) {
            return Err(ErrorKind::InvalidMessages);
        }
        match outcome {
            Err(e) => Err(e),
            Ok(valid) => {
                let kind = if valid {
                    MessageKind::PresentationAck
                } else {
                    MessageKind::PresentationProblemReport
                };
                let reply = AriesMessage {
                    kind,
                    id: fresh_id(),
                    thread_id: Some(self.thread_id.clone()),
                    content: String::new(),
                };
                self.status = if valid {
                    PresentationVerificationStatus::Valid
                } else {
                    PresentationVerificationStatus::Invalid
                };
                self.presentation = Some(presentation);
                self.state = VerifierState::Finished;
                Ok(reply)
            },
        }
    }
}

impl Duplicate for Verifier {
    /// A copy of the verifier that equals it field for field.
    fn duplicate(&self) -> (r: Verifier) {
        let proposal = match &self.proposal {
            Some(m) => Some(m.duplicate()),
            None => None,
        };
        let presentation = match &self.presentation {
            Some(m) => Some(m.duplicate()),
            None => None,
        };
        Verifier {
            source_id: self.source_id.clone(),
            thread_id: self.thread_id.clone(),
            state: self.state,
            request_data: self.request_data.clone(),
            proposal,
            presentation,
            status: self.status,
        }
    }
}

} // verus!
