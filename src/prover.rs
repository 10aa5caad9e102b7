//! The holder side of a presentation exchange.
use vstd::prelude::*;

use crate::error::ErrorKind;
use crate::ids::fresh_id;
use crate::messages::{
    is_ack, is_ack_kind, is_problem_report, is_problem_report_kind, request_thread, AriesMessage,
    MessageKind,
};
use crate::registry::Duplicate;

verus! {

/// Where the holder side of a presentation exchange stands.
#[derive(Clone, Copy, Debug, PartialEq, Eq, Structural)]
pub enum ProverState {
    PresentationProposalSent,
    PresentationRequestReceived,
    PresentationPrepared,
    PresentationSent,
    Finished,
    Failed,
    Declined,
}

/// The number under which a prover state is reported, in declaration order.
pub open spec fn prover_state_code(s: ProverState) -> u32 {
    match s {
        ProverState::PresentationProposalSent => 0,
        ProverState::PresentationRequestReceived => 1,
        ProverState::PresentationPrepared => 2,
        ProverState::PresentationSent => 3,
        ProverState::Finished => 4,
        ProverState::Failed => 5,
        ProverState::Declined => 6,
    }
}

/// The presentation status of a prover: 1 once acknowledged, 2 after a
/// problem report, 3 when declined, 0 while the exchange is open.
pub open spec fn prover_status_code(s: ProverState) -> u32 {
    match s {
        ProverState::Finished => 1,
        ProverState::Failed => 2,
        ProverState::Declined => 3,
        _ => 0,
    }
}

/// The state that an inbound message of kind `k` moves a prover in state `s`
/// to, or `None` where the message does not advance it.
pub open spec fn prover_next(s: ProverState, k: MessageKind) -> Option<ProverState> {
    if s == ProverState::PresentationProposalSent && k == MessageKind::RequestPresentation {
        Some(ProverState::PresentationRequestReceived)
    } else if s == ProverState::PresentationSent && is_ack(k) {
        Some(ProverState::Finished)
    } else if (s == ProverState::PresentationProposalSent || s == ProverState::PresentationSent)
        && is_problem_report(k) {
        Some(ProverState::Failed)
    } else {
        None
    }
}

/// The states in which a prover waits for a message from its peer.
pub open spec fn prover_waits(s: ProverState) -> bool {
    s == ProverState::PresentationProposalSent || s == ProverState::PresentationSent
}

/// The states from which a prover may still decline the request.
pub open spec fn prover_may_decline(s: ProverState) -> bool {
    s == ProverState::PresentationProposalSent || s == ProverState::PresentationRequestReceived
}

impl ProverState {
    pub fn to_u32(&self) -> (r: u32)
        ensures
            r == prover_state_code(*self),
    {
        match self {
            ProverState::PresentationProposalSent => 0,
            ProverState::PresentationRequestReceived => 1,
            ProverState::PresentationPrepared => 2,
            ProverState::PresentationSent => 3,
            ProverState::Finished => 4,
            ProverState::Failed => 5,
            ProverState::Declined => 6,
        }
    }
}

/// The holder side of one presentation exchange.
#[derive(Clone, Debug)]
pub struct Prover {
    pub source_id: String,
    pub thread_id: String,
    pub state: ProverState,
    /// The latest presentation request received.
    pub request: Option<AriesMessage>,
    /// The presentation message, once built.
    pub presentation: Option<AriesMessage>,
}

impl Prover {
    /// A request is held from the moment one arrives, and a presentation
    /// from the moment it is built; both belong to the prover's thread.
    pub open spec fn wf(&self) -> bool {
        &&& (self.state == ProverState::PresentationRequestReceived || self.state
            == ProverState::PresentationPrepared || self.state == ProverState::PresentationSent
            || self.state == ProverState::Finished) ==> self.request is Some
        &&& (self.state == ProverState::PresentationPrepared || self.state
            == ProverState::PresentationSent || self.state == ProverState::Finished)
            ==> self.presentation is Some
        &&& self.request matches Some(r) ==> r.kind == MessageKind::RequestPresentation
        &&& self.presentation matches Some(p) ==> {
            &&& p.kind == MessageKind::Presentation
            &&& p.thread_id matches Some(t) && t@ == self.thread_id@
        }
    }

    /// Tests `wf`.
    pub fn is_well_formed(&self) -> (r: bool)
        ensures
            r == self.wf(),
    {
        let st = self.state;
        let needs_request = match st {
            ProverState::PresentationRequestReceived | ProverState::PresentationPrepared
            | ProverState::PresentationSent | ProverState::Finished => true,
            _ => false,
        };
        let needs_presentation = match st {
            ProverState::PresentationPrepared | ProverState::PresentationSent
            | ProverState::Finished => true,
            _ => false,
        };
        if needs_request && self.request.is_none() {
            return false;
        }
        if needs_presentation && self.presentation.is_none() {
            return false;
        }
        match &self.request {
            Some(r) => {
                if r.kind != MessageKind::RequestPresentation {
                    return false;
                }
            },
            None => {},
        }
        match &self.presentation {
            Some(p) => {
                if p.kind != MessageKind::Presentation {
                    return false;
                }
                match &p.thread_id {
                    Some(t) => t.eq(&self.thread_id),
                    None => false,
                }
            },
            None => true,
        }
    }

}

impl Duplicate for Prover {
    /// A copy of the prover that equals it field for field.
    fn duplicate(&self) -> (r: Prover) {
        let request = match &self.request {
            Some(m) => Some(m.duplicate()),
            None => None,
        };
        let presentation = match &self.presentation {
            Some(m) => Some(m.duplicate()),
            None => None,
        };
        Prover {
            source_id: self.source_id.clone(),
            thread_id: self.thread_id.clone(),
            state: self.state,
            request,
            presentation,
        }
    }
}


/// The prover after an inbound message: moved to the state that
/// `prover_next` gives, holding the message where it is a new request; the
/// same prover where the message does not advance it.
pub open spec fn prover_after(p: Prover, m: AriesMessage) -> Prover {
    match prover_next(p.state, m.kind) {
        None => p,
        Some(s) => if m.kind == MessageKind::RequestPresentation {
            Prover { state: s, request: Some(m), ..p }
        } else {
            Prover { state: s, ..p }
        },
    }
}

/// The message that declines a request on thread `thread`: the
/// counter-proposal where one is given, else a problem report that carries
/// the reason (empty if none).
pub open spec fn is_decline_message(
    m: AriesMessage,
    thread: String,
    reason: Option<String>,
    proposal: Option<String>,
) -> bool {
    &&& m.thread_id == Some(thread)
    &&& match proposal {
        Some(p) => m.kind == MessageKind::ProposePresentation && m.content == p,
        None => m.kind == MessageKind::PresentationProblemReport && match reason {
            Some(t) => m.content == t,
            None => m.content@.len() == 0,
        },
    }
}

impl Prover {
    /// A prover for an inbound presentation request, waiting to build its
    /// presentation.
    pub fn create_from_request(source_id: &str, request: AriesMessage) -> (r: Result<
        Prover,
        ErrorKind,
    >)
        ensures
            request.kind == MessageKind::RequestPresentation <==> r is Ok,
            r matches Err(e) ==> e == ErrorKind::InvalidMessages,
            r matches Ok(p) ==> {
                &&& p.wf()
                &&& p.state == ProverState::PresentationRequestReceived
                &&& p.source_id@ == source_id@
                &&& p.thread_id@ == request_thread(request)
                &&& p.request == Some(request)
                &&& p.presentation is None
            },
    {
        if request.kind != MessageKind::RequestPresentation {
            return Err(ErrorKind::InvalidMessages);
        }
        let thread_id = match &request.thread_id {
            Some(t) => t.clone(),
            None => request.id.clone(),
        };
        Ok(Prover {
            source_id: String::from_str(source_id),
            thread_id,
            state: ProverState::PresentationRequestReceived,
            request: Some(request),
            presentation: None,
        })
    }

    /// A prover that opens a conversation with a proposal, together with the
    /// proposal message to send. The proposal's id starts a new thread.
    pub fn create_with_proposal(source_id: &str, proposal: String) -> (r: (Prover, AriesMessage))
        ensures
            r.0.wf(),
            r.0.state == ProverState::PresentationProposalSent,
            r.0.source_id@ == source_id@,
            r.0.request is None,
            r.0.presentation is None,
            r.1.kind == MessageKind::ProposePresentation,
            r.1.id@ == r.0.thread_id@,
            r.1.thread_id is None,
            r.1.content == proposal,
    {
        let thread_id = fresh_id();
        let msg = AriesMessage {
            kind: MessageKind::ProposePresentation,
            id: thread_id.clone(),
            thread_id: None,
            content: proposal,
        };
        let p = Prover {
            source_id: String::from_str(source_id),
            thread_id,
            state: ProverState::PresentationProposalSent,
            request: None,
            presentation: None,
        };
        (p, msg)
    }

    pub fn get_state(&self) -> (r: ProverState)
        ensures
            r == self.state,
    {
        self.state
    }

    pub fn get_thread_id(&self) -> (r: String)
        ensures
            r == self.thread_id,
    {
        self.thread_id.clone()
    }

    pub fn get_source_id(&self) -> (r: String)
        ensures
            r == self.source_id,
    {
        self.source_id.clone()
    }

    /// See `prover_status_code`.
    pub fn presentation_status(&self) -> (r: u32)
        ensures
            r == prover_status_code(self.state),
    {
        match self.state {
            ProverState::Finished => 1,
            ProverState::Failed => 2,
            ProverState::Declined => 3,
            _ => 0,
        }
    }

    /// Whether the prover waits for a message from its peer.
    pub fn progressable_by_message(&self) -> (r: bool)
        ensures
            r == prover_waits(self.state),
    {
        match self.state {
            ProverState::PresentationProposalSent | ProverState::PresentationSent => true,
            _ => false,
        }
    }

    /// The content of the presentation request held.
    pub fn presentation_request_data(&self) -> (r: Result<String, ErrorKind>)
        ensures
            match self.request {
                Some(m) => r == Ok::<String, ErrorKind>(m.content),
                None => r == Err::<String, ErrorKind>(ErrorKind::InvalidState),
            },
    {
        match &self.request {
            Some(m) => Ok(m.content.clone()),
            None => Err(ErrorKind::InvalidState),
        }
    }

    /// The presentation message, once built.
    pub fn get_presentation_msg(&self) -> (r: Result<AriesMessage, ErrorKind>)
        ensures
            match self.presentation {
                Some(m) => r == Ok::<AriesMessage, ErrorKind>(m),
                None => r == Err::<AriesMessage, ErrorKind>(ErrorKind::InvalidState),
            },
    {
        match &self.presentation {
            Some(m) => Ok(m.duplicate()),
            None => Err(ErrorKind::InvalidState),
        }
    }

    /// Takes what the credential system made of the request: the
    /// presentation's content, or the error that stopped it. Legal only
    /// while the request is open; a failure changes nothing.
    pub fn generate_presentation(&mut self, outcome: Result<String, ErrorKind>) -> (r: Result<
        (),
        ErrorKind,
    >)
        requires
            old(self).wf(),
        ensures
            final(self).wf(),
            old(self).state != ProverState::PresentationRequestReceived ==> r == Err::<
                (),
                ErrorKind,
            >(ErrorKind::InvalidState),
            old(self).state == ProverState::PresentationRequestReceived ==> match outcome {
                Err(e) => r == Err::<(), ErrorKind>(e),
                Ok(content) => {
                    &&& r is Ok
                    &&& final(self).state == ProverState::PresentationPrepared
                    &&& final(self).presentation matches Some(m) && m.kind
                        == MessageKind::Presentation && m.thread_id == Some(old(self).thread_id)
                        && m.content == content
                },
            },
            r is Err ==> *final(self) == *old(self),
            final(self).source_id == old(self).source_id,
            final(self).thread_id == old(self).thread_id,
            final(self).request == old(self).request,
    {
        if self.state != ProverState::PresentationRequestReceived {
            return Err(ErrorKind::InvalidState);
        }
        match outcome {
            Err(e) => Err(e),
            Ok(content) => {
                let msg = AriesMessage {
                    kind: MessageKind::Presentation,
                    id: fresh_id(),
                    thread_id: Some(self.thread_id.clone()),
                    content,
                };
                self.presentation = Some(msg);
                self.state = ProverState::PresentationPrepared;
                Ok(())
            },
        }
    }

    /// The presentation to send; the prover then waits for its acknowledgement.
    pub fn mark_presentation_sent(&mut self) -> (r: Result<AriesMessage, ErrorKind>)
        requires
            old(self).wf(),
        ensures
            final(self).wf(),
            old(self).state == ProverState::PresentationPrepared <==> r is Ok,
            r matches Err(e) ==> e == ErrorKind::InvalidState && *final(self) == *old(self),
            r matches Ok(m) ==> {
                &&& old(self).presentation == Some(m)
                &&& *final(self) == (Prover { state: ProverState::PresentationSent, ..*old(self) })
            },
    {
        if self.state != ProverState::PresentationPrepared {
            return Err(ErrorKind::InvalidState);
        }
        match &self.presentation {
            Some(m) => {
                let msg = m.duplicate();
                self.state = ProverState::PresentationSent;
                Ok(msg)
            },
            None => Err(ErrorKind::InvalidState),
        }
    }

    /// Declines the request, with a counter-proposal where one is given and
    /// else with a problem report that carries the reason (empty if none).
    pub fn decline_presentation_request(
        &mut self,
        reason: Option<String>,
        proposal: Option<String>,
    ) -> (r: Result<AriesMessage, ErrorKind>)
        requires
            old(self).wf(),
        ensures
            final(self).wf(),
            prover_may_decline(old(self).state) <==> r is Ok,
            r matches Err(e) ==> e == ErrorKind::InvalidState && *final(self) == *old(self),
            r matches Ok(m) ==> {
                &&& *final(self) == (Prover { state: ProverState::Declined, ..*old(self) })
                &&& is_decline_message(m, old(self).thread_id, reason, proposal)
            },
    {
        match self.state {
            ProverState::PresentationProposalSent | ProverState::PresentationRequestReceived => {},
            _ => {
                return Err(ErrorKind::InvalidState);
            },
        }
        let msg = match proposal {
            Some(p) => AriesMessage {
                kind: MessageKind::ProposePresentation,
                id: fresh_id(),
                thread_id: Some(self.thread_id.clone()),
                content: p,
            },
            None => AriesMessage {
                kind: MessageKind::PresentationProblemReport,
                id: fresh_id(),
                thread_id: Some(self.thread_id.clone()),
                content: match reason {
                    Some(t) => t,
                    None => String::new(),
                },
            },
        };
        self.state = ProverState::Declined;
        Ok(msg)
    }

    /// Feeds an inbound message to the prover. It returns whether the
    /// message advanced it; one that does not leaves it as it was.
    pub fn process_aries_msg(&mut self, msg: AriesMessage) -> (r: bool)
        requires
            old(self).wf(),
        ensures
            final(self).wf(),
            r == (prover_next(old(self).state, msg.kind) is Some),
            *final(self) == prover_after(*old(self), msg),
    {
        let st = self.state;
        let k = msg.kind;
        if st == ProverState::PresentationProposalSent && k == MessageKind::RequestPresentation {
            self.request = Some(msg);
            self.state = ProverState::PresentationRequestReceived;
            true
        } else if st == ProverState::PresentationSent && is_ack_kind(k) {
            self.state = ProverState::Finished;
            true
        } else if (st == ProverState::PresentationProposalSent || st
            == ProverState::PresentationSent) && is_problem_report_kind(k) {
            self.state = ProverState::Failed;
            true
        } else {
            false
        }
    }
}

} // verus!
