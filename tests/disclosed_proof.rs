use proof_presentation::disclosed_proof::{
    create_with_proof_request, decline_presentation_request, from_snapshot, generate_proof,
    generate_reject_proof_msg, get_presentation_msg, get_presentation_status,
    get_proof_request_attachment, get_proof_request_data, get_proof_request_messages,
    get_source_id, get_state, get_thread_id, is_valid_handle, reject_proof, release, release_all,
    send_proof, snapshot, update_state, DisclosedProofs,
};
use proof_presentation::error::ErrorKind;
use proof_presentation::messages::{AriesMessage, MessageKind};
use proof_presentation::prover::{Prover, ProverState};
use proof_presentation::registry::HandleCache;

const PROOF_REQUEST_DATA: &str = r#"{"nonce":"123432421212","name":"proof_req_1","version":"0.1","requested_attributes":{"address1_1":{"name":"address1"},"zip_2":{"name":"zip"}},"requested_predicates":{}}"#;

fn msg(kind: MessageKind, id: &str, thread: Option<&str>, content: &str) -> AriesMessage {
    AriesMessage::new(kind, id.to_string(), thread.map(|t| t.to_string()), content.to_string())
}

fn proof_request() -> AriesMessage {
    msg(MessageKind::RequestPresentation, "request-1", None, PROOF_REQUEST_DATA)
}

fn new_session(handles: &mut HandleCache<Prover>) -> u32 {
    create_with_proof_request(handles, "id", proof_request()).unwrap()
}

#[test]
fn test_vcx_disclosed_proof_release() {
    let mut handles = HandleCache::new();
    let handle = create_with_proof_request(&mut handles, "TEST_CREDENTIAL", proof_request()).unwrap();
    release(&mut handles, handle).unwrap();
    assert_eq!(snapshot(&handles, handle).unwrap_err(), ErrorKind::InvalidHandle);
}

#[test]
fn test_create_proof() {
    let mut handles = HandleCache::new();
    assert!(create_with_proof_request(&mut handles, "1", proof_request()).unwrap() > 0);
}

#[test]
fn get_state_test() {
    let mut handles = HandleCache::new();
    let handle = new_session(&mut handles);
    assert_eq!(
        ProverState::PresentationRequestReceived as u32,
        get_state(&handles, handle).unwrap()
    );
}

#[test]
fn to_string_test() {
    let mut handles = HandleCache::new();
    let handle = new_session(&mut handles);
    let serialized = snapshot(&handles, handle).unwrap();
    assert_eq!(serialized.version, "2.0");
    let handle_2 = from_snapshot(&mut handles, serialized).unwrap();
    assert_ne!(handle, handle_2);
}

#[test]
fn test_deserialize_succeeds_with_self_attest_allowed() {
    let mut handles = HandleCache::new();
    let handle = new_session(&mut handles);
    let serialized = snapshot(&handles, handle).unwrap();
    from_snapshot(&mut handles, serialized).unwrap();
}

#[test]
fn restore_refuses_unknown_version() {
    let mut handles = HandleCache::new();
    let handle = new_session(&mut handles);
    let mut serialized = snapshot(&handles, handle).unwrap();
    serialized.version = "1.0".to_string();
    assert_eq!(from_snapshot(&mut handles, serialized).unwrap_err(), ErrorKind::InvalidJson);
}

#[test]
fn restore_refuses_malformed_session() {
    let mut handles = HandleCache::new();
    let handle = new_session(&mut handles);
    let mut serialized: DisclosedProofs = snapshot(&handles, handle).unwrap();
    serialized.data.state = ProverState::PresentationSent;
    assert_eq!(from_snapshot(&mut handles, serialized).unwrap_err(), ErrorKind::InvalidJson);
}

#[test]
fn round_trip_keeps_state_thread_and_status() {
    let mut handles = HandleCache::new();
    let handle = new_session(&mut handles);
    generate_proof(&mut handles, handle, Ok("proof".to_string())).unwrap();
    let serialized = snapshot(&handles, handle).unwrap();
    let restored = from_snapshot(&mut handles, serialized).unwrap();
    assert_eq!(get_state(&handles, restored), get_state(&handles, handle));
    assert_eq!(get_thread_id(&handles, restored), get_thread_id(&handles, handle));
    assert_eq!(
        get_presentation_status(&handles, restored),
        get_presentation_status(&handles, handle)
    );
    assert_eq!(get_state(&handles, restored).unwrap(), ProverState::PresentationPrepared as u32);
}

#[test]
fn create_refuses_other_message_kinds() {
    let mut handles: HandleCache<Prover> = HandleCache::new();
    let m = msg(MessageKind::Presentation, "p-1", None, "x");
    assert_eq!(create_with_proof_request(&mut handles, "1", m).unwrap_err(), ErrorKind::InvalidMessages);
}

#[test]
fn handles_count_up_from_one() {
    let mut handles = HandleCache::new();
    assert_eq!(new_session(&mut handles), 1);
    assert_eq!(new_session(&mut handles), 2);
    release_all(&mut handles);
    assert_eq!(new_session(&mut handles), 3);
}

#[test]
fn queries_after_release_fail() {
    let mut handles = HandleCache::new();
    let handle = new_session(&mut handles);
    assert!(is_valid_handle(&handles, handle));
    release(&mut handles, handle).unwrap();
    assert!(!is_valid_handle(&handles, handle));
    assert_eq!(get_state(&handles, handle).unwrap_err(), ErrorKind::InvalidDisclosedProofHandle);
    assert_eq!(get_source_id(&handles, handle).unwrap_err(), ErrorKind::InvalidProofHandle);
    assert_eq!(get_thread_id(&handles, handle).unwrap_err(), ErrorKind::InvalidHandle);
    assert_eq!(release(&mut handles, handle).unwrap_err(), ErrorKind::InvalidDisclosedProofHandle);
}

#[test]
fn release_all_empties_the_registry() {
    let mut handles = HandleCache::new();
    let a = new_session(&mut handles);
    let b = new_session(&mut handles);
    release_all(&mut handles);
    assert!(!is_valid_handle(&handles, a));
    assert!(!is_valid_handle(&handles, b));
}

#[test]
fn request_queries() {
    let mut handles = HandleCache::new();
    let handle = new_session(&mut handles);
    assert_eq!(get_proof_request_data(&handles, handle).unwrap(), PROOF_REQUEST_DATA);
    assert_eq!(get_proof_request_attachment(&handles, handle).unwrap(), PROOF_REQUEST_DATA);
    assert_eq!(get_thread_id(&handles, handle).unwrap(), "request-1");
    assert_eq!(get_source_id(&handles, handle).unwrap(), "id");
    assert_eq!(get_presentation_status(&handles, handle).unwrap(), 0);
    assert_eq!(get_presentation_msg(&handles, handle).unwrap_err(), ErrorKind::InvalidState);
}

#[test]
fn request_thread_is_taken_from_its_thread_reference() {
    let mut handles = HandleCache::new();
    let req = msg(MessageKind::RequestPresentation, "request-2", Some("thread-9"), PROOF_REQUEST_DATA);
    let handle = create_with_proof_request(&mut handles, "s", req).unwrap();
    assert_eq!(get_thread_id(&handles, handle).unwrap(), "thread-9");
}

#[test]
fn reject_message_is_not_offered() {
    assert_eq!(generate_reject_proof_msg(1).unwrap_err(), ErrorKind::ActionNotSupported);
}

#[test]
fn full_prover_exchange_with_pending_ack() {
    let mut handles = HandleCache::new();
    let handle = new_session(&mut handles);
    assert_eq!(
        send_proof(&mut handles, handle, |_m| Ok(())).unwrap_err(),
        ErrorKind::InvalidState
    );
    generate_proof(&mut handles, handle, Ok("the proof".to_string())).unwrap();
    let presentation = get_presentation_msg(&handles, handle).unwrap();
    assert_eq!(presentation.kind, MessageKind::Presentation);
    assert_eq!(presentation.content, "the proof");
    assert_eq!(presentation.thread_id.as_deref(), Some("request-1"));

    let mut sent: Vec<AriesMessage> = Vec::new();
    send_proof(&mut handles, handle, |m| {
        sent.push(m);
        Ok(())
    })
    .unwrap();
    assert_eq!(sent.len(), 1);
    assert_eq!(sent[0].content, "the proof");
    assert_eq!(get_state(&handles, handle).unwrap(), ProverState::PresentationSent as u32);

    let pending = vec![
        ("u1".to_string(), msg(MessageKind::PresentationAck, "a-0", Some("other"), "")),
        ("u2".to_string(), msg(MessageKind::Other, "o-1", Some("request-1"), "")),
        ("u3".to_string(), msg(MessageKind::PresentationAck, "a-1", Some("request-1"), "")),
    ];
    let (state, consumed) = update_state(&mut handles, handle, None, pending).unwrap();
    assert_eq!(state, ProverState::Finished as u32);
    assert_eq!(consumed.as_deref(), Some("u3"));
    assert_eq!(get_presentation_status(&handles, handle).unwrap(), 1);
}

#[test]
fn update_without_qualifying_message_keeps_state() {
    let mut handles = HandleCache::new();
    let handle = new_session(&mut handles);
    generate_proof(&mut handles, handle, Ok("p".to_string())).unwrap();
    send_proof(&mut handles, handle, |_m| Ok(())).unwrap();
    let pending = vec![
        ("u1".to_string(), msg(MessageKind::NotificationAck, "a-0", None, "")),
        ("u2".to_string(), msg(MessageKind::RequestPresentation, "r-1", Some("request-1"), "")),
    ];
    let (state, consumed) = update_state(&mut handles, handle, None, pending).unwrap();
    assert_eq!(state, ProverState::PresentationSent as u32);
    assert_eq!(consumed, None);
}

#[test]
fn update_with_problem_report_fails_session() {
    let mut handles = HandleCache::new();
    let handle = new_session(&mut handles);
    generate_proof(&mut handles, handle, Ok("p".to_string())).unwrap();
    send_proof(&mut handles, handle, |_m| Ok(())).unwrap();
    let report = msg(MessageKind::ReportProblem, "pr-1", None, "bad");
    let (state, _) = update_state(&mut handles, handle, Some(report), Vec::new()).unwrap();
    assert_eq!(state, ProverState::Failed as u32);
    assert_eq!(get_presentation_status(&handles, handle).unwrap(), 2);
}

#[test]
fn update_of_session_that_waits_for_nothing_changes_nothing() {
    let mut handles = HandleCache::new();
    let handle = new_session(&mut handles);
    let ack = msg(MessageKind::PresentationAck, "a", Some("request-1"), "");
    let (state, consumed) = update_state(&mut handles, handle, Some(ack), Vec::new()).unwrap();
    assert_eq!(state, ProverState::PresentationRequestReceived as u32);
    assert_eq!(consumed, None);
    assert_eq!(update_state(&mut handles, 77, None, Vec::new()).unwrap_err(), ErrorKind::InvalidHandle);
}

#[test]
fn gateway_failure_leaves_session_unchanged() {
    let mut handles = HandleCache::new();
    let handle = new_session(&mut handles);
    assert_eq!(
        generate_proof(&mut handles, handle, Err(ErrorKind::CredentialGatewayError)).unwrap_err(),
        ErrorKind::CredentialGatewayError
    );
    assert_eq!(get_state(&handles, handle).unwrap(), ProverState::PresentationRequestReceived as u32);
}

#[test]
fn transport_failure_is_not_written_back() {
    let mut handles = HandleCache::new();
    let handle = new_session(&mut handles);
    generate_proof(&mut handles, handle, Ok("p".to_string())).unwrap();
    assert_eq!(
        send_proof(&mut handles, handle, |_m| Err(ErrorKind::TransportError)).unwrap_err(),
        ErrorKind::TransportError
    );
    assert_eq!(get_state(&handles, handle).unwrap(), ProverState::PresentationPrepared as u32);
}

#[test]
fn reject_sends_problem_report_and_declines() {
    let mut handles = HandleCache::new();
    let handle = new_session(&mut handles);
    let mut sent: Vec<AriesMessage> = Vec::new();
    reject_proof(&mut handles, handle, |m| {
        sent.push(m);
        Ok(())
    })
    .unwrap();
    assert_eq!(sent[0].kind, MessageKind::PresentationProblemReport);
    assert_eq!(sent[0].content, "Presentation Request was rejected");
    assert_eq!(sent[0].thread_id.as_deref(), Some("request-1"));
    assert_eq!(get_state(&handles, handle).unwrap(), ProverState::Declined as u32);
    assert_eq!(get_presentation_status(&handles, handle).unwrap(), 3);
    assert_eq!(
        generate_proof(&mut handles, handle, Ok("p".to_string())).unwrap_err(),
        ErrorKind::InvalidState
    );
}

#[test]
fn decline_with_counter_proposal() {
    let mut handles = HandleCache::new();
    let handle = new_session(&mut handles);
    let mut sent: Vec<AriesMessage> = Vec::new();
    decline_presentation_request(&mut handles, handle, None, Some("counter".to_string()), |m| {
        sent.push(m);
        Ok(())
    })
    .unwrap();
    assert_eq!(sent[0].kind, MessageKind::ProposePresentation);
    assert_eq!(sent[0].content, "counter");
    assert_eq!(
        decline_presentation_request(&mut handles, handle, None, None, |_m| Ok(())).unwrap_err(),
        ErrorKind::InvalidState
    );
}

#[test]
fn proof_request_messages_are_filtered_in_order() {
    let pending = vec![
        ("u1".to_string(), msg(MessageKind::RequestPresentation, "r-1", None, "a")),
        ("u2".to_string(), msg(MessageKind::PresentationAck, "a-1", Some("t"), "")),
        ("u3".to_string(), msg(MessageKind::RequestPresentation, "r-2", None, "b")),
    ];
    let requests = get_proof_request_messages(&pending);
    assert_eq!(requests.len(), 2);
    assert_eq!(requests[0].id, "r-1");
    assert_eq!(requests[1].id, "r-2");
    assert!(get_proof_request_messages(&Vec::new()).is_empty());
}
