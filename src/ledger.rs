//! Checks on ledger transactions that an endorser is asked to sign.
use vstd::prelude::*;

use crate::error::ErrorKind;

verus! {

/// The fields of a ledger transaction that endorsement depends on.
#[derive(Clone, Debug)]
pub struct Request {
    pub req_id: u64,
    pub identifier: String,
    pub signature: Option<String>,
    /// Multi-signatures: signer DID and signature.
    pub signatures: Option<Vec<(String, String)>>,
    pub endorser: Option<String>,
}

/// Whether the transaction's author has signed it: by its single
/// signature, or among its multi-signatures.
pub open spec fn author_signed(t: Request) -> bool {
    t.signature is Some || (t.signatures matches Some(sigs) && exists|i: int|
        0 <= i < sigs@.len() && (#[trigger] sigs@[i]).0@ == t.identifier@)
}

/// A transaction can be endorsed by `submitter_did` when it names that DID
/// as its endorser and its author has signed it.
pub open spec fn can_be_endorsed(t: Request, submitter_did: Seq<char>) -> bool {
    &&& t.endorser matches Some(e) && e@ == submitter_did
    &&& author_signed(t)
}

fn has_signer(sigs: &Vec<(String, String)>, did: &String) -> (r: bool)
    ensures
        r == exists|i: int| 0 <= i < sigs@.len() && (#[trigger] sigs@[i]).0@ == did@,
{
    let mut i: usize = 0;
    while i < sigs.len()
        invariant
            i <= sigs@.len(),
            forall|j: int| 0 <= j < i ==> (#[trigger] sigs@[j]).0@ != did@,
        decreases sigs@.len() - i,
    {
        if sigs[i].0.eq(did) {
            return true;
        }
        i = i + 1;
    }
    false
}

/// Checks that `submitter_did` may endorse the transaction; every refusal
/// is reported as `InvalidJson`.
pub fn verify_transaction_can_be_endorsed(transaction: &Request, submitter_did: &str) -> (r: Result<
    (),
    ErrorKind,
>)
    ensures
        r is Ok <==> can_be_endorsed(*transaction, submitter_did@),
        r matches Err(e) ==> e == ErrorKind::InvalidJson,
{
    let submitter = String::from_str(submitter_did);
    match &transaction.endorser {
        None => {
            return Err(ErrorKind::InvalidJson);
        },
        Some(e) => {
            if !e.eq(&submitter) {
                return Err(ErrorKind::InvalidJson);
            }
        },
    }
    if transaction.signature.is_some() {
        return Ok(());
    }
    match &transaction.signatures {
        Some(sigs) => {
            if has_signer(sigs, &transaction.identifier) {
                Ok(())
            } else {
                Err(ErrorKind::InvalidJson)
            }
        },
        None => Err(ErrorKind::InvalidJson),
    }
}

} // verus!
