//! The ways a call can fail.
use vstd::prelude::*;

verus! {

/// What went wrong in a call. A cryptographically invalid presentation is no
/// error: it ends a verifier session with status `Invalid`.
#[derive(Clone, Copy, Debug, PartialEq, Eq, Structural)]
pub enum ErrorKind {
    /// No session under the given thread id.
    NotFound,
    /// No session under the given legacy handle.
    InvalidHandle,
    /// A legacy handle lookup made on behalf of a prover session failed.
    InvalidDisclosedProofHandle,
    /// A legacy handle lookup for the source id of a prover session failed.
    InvalidProofHandle,
    /// The operation is not legal in the session's current state.
    InvalidState,
    /// A payload could not be read.
    InvalidJson,
    /// A message handed in as an argument could not be read.
    InvalidOption,
    /// An inbound message is of an unexpected kind or thread.
    InvalidMessages,
    /// The presentation request is malformed.
    InvalidProofRequest,
    /// The requested attributes or predicates are malformed.
    InvalidAttributesStructure,
    /// The outbound message could not be delivered.
    TransportError,
    /// Proof construction or verification could not be carried out.
    CredentialGatewayError,
    /// The operation is not offered for this kind of session.
    ActionNotSupported,
    /// The handle space of a registry is used up.
    ObjectCacheError,
}

} // verus!
