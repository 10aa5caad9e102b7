use proof_presentation::error::ErrorKind;
use proof_presentation::matcher::{prover_find_message_to_handle, verifier_find_message_to_handle};
use proof_presentation::messages::{AriesMessage, MessageKind};
use proof_presentation::prover::{Prover, ProverState};
use proof_presentation::service::ServiceVerifier;
use proof_presentation::verification::{PresentationVerificationStatus, Verifier, VerifierState};

const ADDRESS_REQUEST: &str = r#"{"nonce":"123432421212","name":"proof_req_1","version":"0.1","requested_attributes":{"addr":{"name":"address1"}},"requested_predicates":{}}"#;

fn msg(kind: MessageKind, id: &str, thread: Option<&str>, content: &str) -> AriesMessage {
    AriesMessage::new(kind, id.to_string(), thread.map(|t| t.to_string()), content.to_string())
}

fn presentation_for(thread: &str) -> AriesMessage {
    msg(MessageKind::Presentation, "pres-1", Some(thread), "proof")
}

fn sent_prover() -> Prover {
    let req = msg(MessageKind::RequestPresentation, "req-1", None, ADDRESS_REQUEST);
    let mut p = Prover::create_from_request("src", req).unwrap();
    p.generate_presentation(Ok("proof".to_string())).unwrap();
    p.mark_presentation_sent().unwrap();
    p
}

#[test]
fn prover_starts_with_request_received() {
    let req = msg(MessageKind::RequestPresentation, "req-1", None, ADDRESS_REQUEST);
    let p = Prover::create_from_request("src", req).unwrap();
    assert_eq!(p.get_state(), ProverState::PresentationRequestReceived);
    assert_eq!(p.get_thread_id(), "req-1");
}

#[test]
fn verifier_starts_with_request_set() {
    let v = Verifier::create_from_request("src".to_string(), ADDRESS_REQUEST.to_string());
    assert_eq!(v.get_state(), VerifierState::RequestSet);
    assert_eq!(v.get_verification_status(), PresentationVerificationStatus::Unverified);
}

#[test]
fn fresh_threads_are_uuids_and_differ() {
    let a = Verifier::create_from_request(String::new(), String::new());
    let b = Verifier::create_from_request(String::new(), String::new());
    assert_eq!(a.get_thread_id().len(), 36);
    assert_eq!(a.get_thread_id().matches('-').count(), 4);
    for (i, c) in a.get_thread_id().chars().enumerate() {
        if [8, 13, 18, 23].contains(&i) {
            assert_eq!(c, '-');
        } else {
            assert!(c.is_ascii_digit() || ('a'..='f').contains(&c));
        }
    }
    assert_ne!(a.get_thread_id(), b.get_thread_id());
}

#[test]
fn request_sent_only_from_request_set() {
    let mut v = Verifier::create_from_request("s".to_string(), ADDRESS_REQUEST.to_string());
    let m = v.mark_presentation_request_sent().unwrap();
    assert_eq!(m.kind, MessageKind::RequestPresentation);
    assert_eq!(m.id, v.get_thread_id());
    assert_eq!(m.thread_id, None);
    assert_eq!(m.content, ADDRESS_REQUEST);
    assert_eq!(v.get_state(), VerifierState::RequestSent);
    assert_eq!(v.mark_presentation_request_sent().unwrap_err(), ErrorKind::InvalidState);
    assert_eq!(v.get_state(), VerifierState::RequestSent);
}

#[test]
fn request_answering_proposal_keeps_its_thread() {
    let proposal = msg(MessageKind::ProposePresentation, "prop-1", None, "offer");
    let mut v = Verifier::create_from_proposal("s", &proposal, ADDRESS_REQUEST.to_string()).unwrap();
    assert_eq!(v.get_thread_id(), "prop-1");
    let m = v.mark_presentation_request_sent().unwrap();
    assert_eq!(m.thread_id.as_deref(), Some("prop-1"));
    let not_proposal = msg(MessageKind::Presentation, "x", None, "");
    assert_eq!(
        Verifier::create_from_proposal("s", &not_proposal, String::new()).unwrap_err(),
        ErrorKind::InvalidMessages
    );
}

#[test]
fn address_request_scenario() {
    for valid in [true, false] {
        let mut v = Verifier::create_from_request("s".to_string(), ADDRESS_REQUEST.to_string());
        v.mark_presentation_request_sent().unwrap();
        assert_eq!(v.get_state(), VerifierState::RequestSent);
        let tid = v.get_thread_id();
        let reply = v.verify_presentation(presentation_for(&tid), Ok(valid)).unwrap();
        assert_eq!(v.get_state(), VerifierState::Finished);
        let expected = if valid {
            PresentationVerificationStatus::Valid
        } else {
            PresentationVerificationStatus::Invalid
        };
        assert_eq!(v.get_verification_status(), expected);
        assert_ne!(v.get_verification_status(), PresentationVerificationStatus::Unverified);
        let kind = if valid { MessageKind::PresentationAck } else { MessageKind::PresentationProblemReport };
        assert_eq!(reply.kind, kind);
        assert_eq!(reply.thread_id, Some(tid));
    }
}

#[test]
fn invalid_proof_is_no_error() {
    let mut v = Verifier::create_from_request("s".to_string(), ADDRESS_REQUEST.to_string());
    v.mark_presentation_request_sent().unwrap();
    let tid = v.get_thread_id();
    assert!(v.verify_presentation(presentation_for(&tid), Ok(false)).is_ok());
    assert_eq!(v.get_state(), VerifierState::Finished);
    assert_eq!(v.get_verification_status(), PresentationVerificationStatus::Invalid);
}

#[test]
fn verify_errors_change_nothing() {
    let mut v = Verifier::create_from_request("s".to_string(), ADDRESS_REQUEST.to_string());
    let tid = v.get_thread_id();
    assert_eq!(
        v.verify_presentation(presentation_for(&tid), Ok(true)).unwrap_err(),
        ErrorKind::InvalidState
    );
    v.mark_presentation_request_sent().unwrap();
    assert_eq!(
        v.verify_presentation(presentation_for("other"), Ok(true)).unwrap_err(),
        ErrorKind::InvalidMessages
    );
    assert_eq!(
        v.verify_presentation(presentation_for(&tid), Err(ErrorKind::CredentialGatewayError))
            .unwrap_err(),
        ErrorKind::CredentialGatewayError
    );
    assert_eq!(v.get_state(), VerifierState::RequestSent);
    assert_eq!(v.get_verification_status(), PresentationVerificationStatus::Unverified);
}

#[test]
fn verifier_fails_on_problem_report() {
    let mut v = Verifier::create_from_request("s".to_string(), ADDRESS_REQUEST.to_string());
    v.mark_presentation_request_sent().unwrap();
    assert!(v.process_aries_msg(msg(MessageKind::ReportProblem, "p", None, "")));
    assert_eq!(v.get_state(), VerifierState::Failed);
}

#[test]
fn matcher_selects_single_matching_ack() {
    let p = sent_prover();
    let ack = msg(MessageKind::NotificationAck, "ack-1", Some("req-1"), "");
    let found = prover_find_message_to_handle(&p, vec![("uid-1".to_string(), ack)]).unwrap();
    assert_eq!(found.0, "uid-1");
    assert_eq!(found.1.id, "ack-1");
}

#[test]
fn matcher_returns_none_without_qualifying_message() {
    let p = sent_prover();
    assert!(prover_find_message_to_handle(&p, Vec::new()).is_none());
    let pending = vec![
        ("a".to_string(), msg(MessageKind::PresentationAck, "x", None, "")),
        ("b".to_string(), msg(MessageKind::PresentationAck, "y", Some("req-2"), "")),
        ("c".to_string(), msg(MessageKind::ProposePresentation, "z", Some("req-1"), "")),
    ];
    assert!(prover_find_message_to_handle(&p, pending).is_none());
}

#[test]
fn matcher_accepts_problem_report_without_thread() {
    let p = sent_prover();
    let pending = vec![("a".to_string(), msg(MessageKind::PresentationProblemReport, "x", None, ""))];
    assert_eq!(prover_find_message_to_handle(&p, pending).unwrap().0, "a");
}

#[test]
fn matcher_in_proposal_state_takes_request() {
    let (p, proposal) = Prover::create_with_proposal("src", "offer".to_string());
    assert_eq!(proposal.kind, MessageKind::ProposePresentation);
    assert_eq!(proposal.id, p.get_thread_id());
    let tid = p.get_thread_id();
    let pending = vec![
        ("a".to_string(), msg(MessageKind::PresentationProblemReport, "x", None, "")),
        ("b".to_string(), msg(MessageKind::RequestPresentation, "r", Some(&tid), "req")),
    ];
    let (uid, m) = prover_find_message_to_handle(&p, pending).unwrap();
    assert_eq!(uid, "b");
    let mut p = p;
    assert!(p.process_aries_msg(m));
    assert_eq!(p.get_state(), ProverState::PresentationRequestReceived);
    assert_eq!(p.presentation_request_data().unwrap(), "req");
}

#[test]
fn matcher_waits_for_nothing_in_other_states() {
    let req = msg(MessageKind::RequestPresentation, "req-1", None, ADDRESS_REQUEST);
    let p = Prover::create_from_request("src", req).unwrap();
    let ack = msg(MessageKind::PresentationAck, "a", Some("req-1"), "");
    assert!(prover_find_message_to_handle(&p, vec![("a".to_string(), ack)]).is_none());
}

#[test]
fn unexpected_message_is_not_progressable() {
    let mut p = sent_prover();
    assert!(!p.process_aries_msg(msg(MessageKind::RequestPresentation, "r", Some("req-1"), "")));
    assert_eq!(p.get_state(), ProverState::PresentationSent);
    assert!(p.process_aries_msg(msg(MessageKind::PresentationAck, "a", Some("req-1"), "")));
    assert_eq!(p.get_state(), ProverState::Finished);
    assert_eq!(p.presentation_status(), 1);
}

#[test]
fn service_sends_request_and_settles_presentation() {
    let mut service = ServiceVerifier::new();
    let mut sent: Vec<AriesMessage> = Vec::new();
    let tid = service
        .send_proof_request("conn-1", ADDRESS_REQUEST.to_string(), None, |m| {
            sent.push(m);
            Ok(())
        })
        .unwrap();
    assert_eq!(sent[0].id, tid);
    assert!(service.exists_by_id(&tid));
    assert_eq!(service.get_state(&tid).unwrap(), VerifierState::RequestSent);
    assert_eq!(service.get_request_data(&tid).unwrap(), ADDRESS_REQUEST);
    service
        .verify_presentation(&tid, presentation_for(&tid), Ok(true), |m| {
            sent.push(m);
            Ok(())
        })
        .unwrap();
    assert_eq!(sent[1].kind, MessageKind::PresentationAck);
    assert_eq!(service.get_state(&tid).unwrap(), VerifierState::Finished);
    assert_eq!(service.get_presentation_status(&tid).unwrap(), PresentationVerificationStatus::Valid);
}

#[test]
fn service_keeps_nothing_when_transport_fails() {
    let mut service = ServiceVerifier::new();
    let mut tid = String::new();
    let r = service.send_proof_request("conn-1", ADDRESS_REQUEST.to_string(), None, |m| {
        tid = m.id.clone();
        Err(ErrorKind::TransportError)
    });
    assert_eq!(r.unwrap_err(), ErrorKind::TransportError);
    assert!(!service.exists_by_id(&tid));
    assert_eq!(service.get_state(&tid).unwrap_err(), ErrorKind::NotFound);
}

#[test]
fn service_settlement_not_written_when_reply_fails() {
    let mut service = ServiceVerifier::new();
    let tid = service.send_proof_request("c", ADDRESS_REQUEST.to_string(), None, |_m| Ok(())).unwrap();
    let r = service.verify_presentation(&tid, presentation_for(&tid), Ok(false), |_m| {
        Err(ErrorKind::TransportError)
    });
    assert_eq!(r.unwrap_err(), ErrorKind::TransportError);
    assert_eq!(service.get_state(&tid).unwrap(), VerifierState::RequestSent);
    assert_eq!(
        service.get_presentation_status(&tid).unwrap(),
        PresentationVerificationStatus::Unverified
    );
    assert_eq!(
        service.verify_presentation("missing", presentation_for("missing"), Ok(true), |_m| Ok(()))
            .unwrap_err(),
        ErrorKind::NotFound
    );
}

#[test]
fn service_answers_proposal_on_its_thread() {
    let mut service = ServiceVerifier::new();
    let proposal = msg(MessageKind::ProposePresentation, "prop-7", None, "offer");
    let tid = service
        .send_proof_request("c", ADDRESS_REQUEST.to_string(), Some(proposal), |_m| Ok(()))
        .unwrap();
    assert_eq!(tid, "prop-7");
    let wrong = msg(MessageKind::Other, "o", None, "");
    assert_eq!(
        service.send_proof_request("c", String::new(), Some(wrong), |_m| Ok(())).unwrap_err(),
        ErrorKind::InvalidMessages
    );
}

#[test]
fn service_update_state_with_problem_report() {
    let mut service = ServiceVerifier::new();
    let tid = service.send_proof_request("c", ADDRESS_REQUEST.to_string(), None, |_m| Ok(())).unwrap();
    let report = msg(MessageKind::NotificationProblemReport, "r", None, "");
    let (state, consumed) = service.update_state(&tid, Some(report), Vec::new()).unwrap();
    assert_eq!(state, VerifierState::Failed);
    assert_eq!(consumed, None);
    assert_eq!(service.get_state(&tid).unwrap(), VerifierState::Failed);
}

#[test]
fn verifier_leaves_presentations_for_settling() {
    let mut v = Verifier::create_from_request("s".to_string(), ADDRESS_REQUEST.to_string());
    v.mark_presentation_request_sent().unwrap();
    let tid = v.get_thread_id();
    assert!(!v.process_aries_msg(presentation_for(&tid)));
    assert_eq!(v.get_state(), VerifierState::RequestSent);
    v.verify_presentation(presentation_for(&tid), Ok(true)).unwrap();
    assert_eq!(v.get_verification_status(), PresentationVerificationStatus::Valid);
    assert_eq!(
        v.verify_presentation(presentation_for(&tid), Ok(false)).unwrap_err(),
        ErrorKind::InvalidState
    );
    assert_eq!(v.get_verification_status(), PresentationVerificationStatus::Valid);
}

#[test]
fn verifier_matcher_takes_problem_reports_only() {
    let mut v = Verifier::create_from_request("s".to_string(), ADDRESS_REQUEST.to_string());
    let tid = v.get_thread_id();
    let report = ("r".to_string(), msg(MessageKind::ReportProblem, "x", None, ""));
    assert!(verifier_find_message_to_handle(&v, vec![report.clone()]).is_none());
    v.mark_presentation_request_sent().unwrap();
    let pending = vec![
        ("a".to_string(), presentation_for(&tid)),
        ("b".to_string(), msg(MessageKind::PresentationAck, "x", Some(&tid), "")),
        report,
    ];
    assert_eq!(verifier_find_message_to_handle(&v, pending).unwrap().0, "r");
}

#[test]
fn service_update_state_leaves_presentations_in_the_pool() {
    let mut service = ServiceVerifier::new();
    let tid = service.send_proof_request("c", ADDRESS_REQUEST.to_string(), None, |_m| Ok(())).unwrap();
    let pending = vec![
        ("u0".to_string(), msg(MessageKind::Other, "o", Some(&tid), "")),
        ("u1".to_string(), presentation_for(&tid)),
    ];
    assert_eq!(service.update_state(&tid, None, pending).unwrap(), (VerifierState::RequestSent, None));
    service.verify_presentation(&tid, presentation_for(&tid), Ok(false), |_m| Ok(())).unwrap();
    assert_eq!(service.get_state(&tid).unwrap(), VerifierState::Finished);
    assert_eq!(service.get_presentation_status(&tid).unwrap(), PresentationVerificationStatus::Invalid);
    assert_eq!(service.update_state("nope", None, Vec::new()).unwrap_err(), ErrorKind::NotFound);
}
