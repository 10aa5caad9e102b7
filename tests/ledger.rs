use proof_presentation::error::ErrorKind;
use proof_presentation::ledger::{verify_transaction_can_be_endorsed, Request};

fn request(signature: Option<&str>, signatures: Option<Vec<(&str, &str)>>, endorser: Option<&str>) -> Request {
    Request {
        req_id: 1,
        identifier: "author-did".to_string(),
        signature: signature.map(|s| s.to_string()),
        signatures: signatures
            .map(|v| v.into_iter().map(|(a, b)| (a.to_string(), b.to_string())).collect()),
        endorser: endorser.map(|s| s.to_string()),
    }
}

#[test]
fn endorsable_with_single_signature() {
    let t = request(Some("sig"), None, Some("endorser-did"));
    assert!(verify_transaction_can_be_endorsed(&t, "endorser-did").is_ok());
}

#[test]
fn endorsable_with_author_multi_signature() {
    let t = request(None, Some(vec![("other", "s1"), ("author-did", "s2")]), Some("endorser-did"));
    assert!(verify_transaction_can_be_endorsed(&t, "endorser-did").is_ok());
}

#[test]
fn refused_without_endorser() {
    let t = request(Some("sig"), None, None);
    assert_eq!(verify_transaction_can_be_endorsed(&t, "endorser-did").unwrap_err(), ErrorKind::InvalidJson);
}

#[test]
fn refused_for_other_submitter() {
    let t = request(Some("sig"), None, Some("endorser-did"));
    assert_eq!(verify_transaction_can_be_endorsed(&t, "someone-else").unwrap_err(), ErrorKind::InvalidJson);
}

#[test]
fn refused_without_author_signature() {
    let t = request(None, Some(vec![("other", "s1")]), Some("endorser-did"));
    assert_eq!(verify_transaction_can_be_endorsed(&t, "endorser-did").unwrap_err(), ErrorKind::InvalidJson);
    let t = request(None, None, Some("endorser-did"));
    assert_eq!(verify_transaction_can_be_endorsed(&t, "endorser-did").unwrap_err(), ErrorKind::InvalidJson);
}
