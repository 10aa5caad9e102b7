//! The protocol messages of a presentation conversation.
use vstd::prelude::*;

use crate::registry::Duplicate;

verus! {

/// The kinds of protocol message that a presentation conversation exchanges.
#[derive(Clone, Copy, Debug, PartialEq, Eq, Structural)]
pub enum MessageKind {
    ProposePresentation,
    RequestPresentation,
    Presentation,
    PresentationAck,
    PresentationProblemReport,
    NotificationAck,
    NotificationProblemReport,
    ReportProblem,
    /// Any message of another protocol.
    Other,
}

/// One protocol message: its kind, its own id, the thread it refers to, and
/// its content (the request, proposal, presentation or report text).
#[derive(Clone, Debug)]
pub struct AriesMessage {
    pub kind: MessageKind,
    pub id: String,
    pub thread_id: Option<String>,
    pub content: String,
}

/// Whether a message kind closes a conversation with an acknowledgement.
pub open spec fn is_ack(k: MessageKind) -> bool {
    k == MessageKind::PresentationAck || k == MessageKind::NotificationAck
}

/// Whether a message kind reports a problem.
pub open spec fn is_problem_report(k: MessageKind) -> bool {
    k == MessageKind::PresentationProblemReport || k == MessageKind::NotificationProblemReport
        || k == MessageKind::ReportProblem
}

/// The thread that a message belongs to: the thread it names, or else (as
/// the first message of a conversation) its own id.
pub open spec fn request_thread(m: AriesMessage) -> Seq<char> {
    match m.thread_id {
        Some(t) => t@,
        None => m.id@,
    }
}

/// A message refers to thread `tid`; where `mandatory` is false a message
/// that names no thread is taken to refer to it as well.
pub open spec fn refers_to(thread_id: Option<String>, tid: Seq<char>, mandatory: bool) -> bool {
    match thread_id {
        Some(t) => t@ == tid,
        None => !mandatory,
    }
}

pub fn is_ack_kind(k: MessageKind) -> (r: bool)
    ensures
        r == is_ack(k),
{
    match k {
        MessageKind::PresentationAck | MessageKind::NotificationAck => true,
        _ => false,
    }
}

pub fn is_problem_report_kind(k: MessageKind) -> (r: bool)
    ensures
        r == is_problem_report(k),
{
    match k {
        MessageKind::PresentationProblemReport
        | MessageKind::NotificationProblemReport
        | MessageKind::ReportProblem => true,
        _ => false,
    }
}

/// Tests `refers_to` on a message's thread reference.
pub fn thread_matches(thread_id: &Option<String>, tid: &String, mandatory: bool) -> (r: bool)
    ensures
        r == refers_to(*thread_id, tid@, mandatory),
{
    match thread_id {
        Some(t) => t.eq(tid),
        None => !mandatory,
    }
}

impl AriesMessage {
    pub fn new(kind: MessageKind, id: String, thread_id: Option<String>, content: String) -> (r:
        AriesMessage)
        ensures
            r.kind == kind,
            r.id == id,
            r.thread_id == thread_id,
            r.content == content,
    {
        AriesMessage { kind, id, thread_id, content }
    }
}

impl Duplicate for AriesMessage {
    /// A copy of the message that equals it field for field.
    fn duplicate(&self) -> (r: AriesMessage) {
        AriesMessage {
            kind: self.kind,
            id: self.id.clone(),
            thread_id: copy_opt_string(&self.thread_id),
            content: self.content.clone(),
        }
    }
}


/// A copy of an optional string that equals it.
pub fn copy_opt_string(s: &Option<String>) -> (r: Option<String>)
    ensures
        r == *s,
{
    match s {
        Some(t) => Some(t.clone()),
        None => None,
    }
}

} // verus!
