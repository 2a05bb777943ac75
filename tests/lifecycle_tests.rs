use compliance_core::cache::{cache_response, get_cached_response, ResponseCache};
use compliance_core::lifecycle::{
    begin, decode_journal, finish, proof_from_payload, FulfillmentData, ProofError, Step,
    LOCK_TIMEOUT, POLL_INTERVAL_SECS, RAMP_UP_PERIOD, REQUEST_TIMEOUT,
};
use compliance_core::types::{ComplianceRequest, Fulfillment, PoolId, UserRequest, UserResponse};

fn allowed_request() -> ComplianceRequest {
    ComplianceRequest {
        user: "0xabc".to_string(),
        pool_id: PoolId::Gold,
        residency: "US".to_string(),
        kyc_level: 2,
        aml_passed: true,
        accredited_investor: false,
        exposure_musd: 20_000,
        requested_amount: 10_000,
        risk_score: 3,
    }
}

fn proven_journal() -> Vec<u8> {
    vec![1, 0, 0, 0, 1, 0, 0, 0]
}

#[test]
fn guest_stdin_is_a_little_endian_word() {
    assert_eq!(UserRequest { is_compliant: true }.to_guest_stdin(), vec![1, 0, 0, 0]);
    assert_eq!(UserRequest { is_compliant: false }.to_guest_stdin(), vec![0, 0, 0, 0]);
}

#[test]
fn begin_submits_allowed_request() {
    let cache = ResponseCache::new();
    match begin(&cache, &allowed_request()) {
        Step::Submit(job) => {
            assert_eq!(job.stdin, vec![1, 0, 0, 0]);
            assert_eq!(job.offer.ramp_up_period, 30);
            assert_eq!(job.offer.lock_timeout, 500);
            assert_eq!(job.offer.timeout, 900);
            assert_eq!(job.poll_interval_secs, 10);
        }
        Step::Respond(_) => panic!("expected a submission"),
    }
    assert_eq!((RAMP_UP_PERIOD, LOCK_TIMEOUT, REQUEST_TIMEOUT, POLL_INTERVAL_SECS), (30, 500, 900, 10));
}

#[test]
fn begin_answers_denial_without_submitting() {
    let cache = ResponseCache::new();
    let mut r = allowed_request();
    r.aml_passed = false;
    match begin(&cache, &r) {
        Step::Respond(resp) => {
            assert!(!resp.outcome.allowed);
            assert_eq!(resp.message, "AML screening failed");
            assert_eq!(resp.outcome.reason, "AML screening failed");
            assert!(resp.proof.is_none());
        }
        Step::Submit(_) => panic!("a denied request is not submitted"),
    }
}

#[test]
fn begin_returns_cached_response() {
    let mut cache = ResponseCache::new();
    let r = allowed_request();
    let mut stored_outcome = compliance_core::policy::evaluate(&r);
    stored_outcome.reason = "stored earlier".to_string();
    let stored = UserResponse { outcome: stored_outcome, proof: None, message: "cached".to_string() };
    cache_response(&mut cache, &r, &stored);
    match begin(&cache, &r) {
        Step::Respond(resp) => {
            assert_eq!(resp.message, "cached");
            assert_eq!(resp.outcome.reason, "stored earlier");
        }
        Step::Submit(_) => panic!("a cached request is not submitted again"),
    }
}

#[test]
fn finish_with_proof_caches_response() {
    let mut cache = ResponseCache::new();
    let r = allowed_request();
    let data = FulfillmentData { journal: proven_journal(), seal: vec![0xde, 0xad], id: [0x11; 32] };
    let resp = finish(&mut cache, &r, Ok(data));
    assert!(resp.outcome.allowed);
    assert_eq!(resp.message, "Compliance proven with zkVM");
    let proof = resp.proof.as_ref().expect("proof");
    assert_eq!(proof.journal, vec![1]);
    assert_eq!(proof.seal, vec![0xde, 0xad]);
    assert_eq!(
        proof.str_format,
        "Journal (hex): 01\nSeal (hex): dead\nID (hex): 1111111111111111..."
    );
    let cached = get_cached_response(&cache, &r).expect("cached");
    assert_eq!(cached.message, "Compliance proven with zkVM");
    assert!(cached.proof.is_some());
}

#[test]
fn finish_submission_error() {
    let mut cache = ResponseCache::new();
    let r = allowed_request();
    let resp = finish(&mut cache, &r, Err(ProofError::Submission("no funds".to_string())));
    assert!(!resp.outcome.allowed);
    assert_eq!(resp.outcome.max_allocation, 0);
    assert_eq!(resp.outcome.reason, "System error: proof request submission failed: no funds");
    assert_eq!(resp.message, "Proof generation failed: proof request submission failed: no funds");
    assert!(resp.proof.is_none());
    assert!(get_cached_response(&cache, &r).is_none());
}

#[test]
fn finish_timeout_error() {
    let mut cache = ResponseCache::new();
    let r = allowed_request();
    let resp = finish(&mut cache, &r, Err(ProofError::Timeout("expired".to_string())));
    assert_eq!(resp.outcome.reason, "System error: proof fulfillment timed out: expired");
    assert!(get_cached_response(&cache, &r).is_none());
}

#[test]
fn finish_malformed_journal() {
    let mut cache = ResponseCache::new();
    let r = allowed_request();
    let data = FulfillmentData { journal: vec![1, 0, 0], seal: vec![], id: [0; 32] };
    let resp = finish(&mut cache, &r, Ok(data));
    assert!(!resp.outcome.allowed);
    assert_eq!(
        resp.outcome.reason,
        "System error: journal could not be decoded: journal length is not a whole number of words"
    );
    assert!(get_cached_response(&cache, &r).is_none());
}

#[test]
fn finish_journal_denying_compliance() {
    let mut cache = ResponseCache::new();
    let r = allowed_request();
    let data = FulfillmentData { journal: vec![1, 0, 0, 0, 0, 0, 0, 0], seal: vec![], id: [0; 32] };
    let resp = finish(&mut cache, &r, Ok(data));
    assert_eq!(
        resp.outcome.reason,
        "System error: journal could not be decoded: journal does not attest compliance"
    );
}

#[test]
fn decode_journal_reads_byte_vector() {
    assert_eq!(decode_journal(&proven_journal()).unwrap(), vec![1]);
    assert_eq!(decode_journal(&vec![2, 0, 0, 0, 7, 0, 0, 0, 9, 0, 0, 0]).unwrap(), vec![7, 9]);
    assert!(matches!(decode_journal(&vec![2, 0, 0, 0, 7, 0, 0, 0]), Err(ProofError::Decode(_))));
    assert!(matches!(decode_journal(&vec![1, 0]), Err(ProofError::Decode(_))));
}

#[test]
fn proof_from_payload_requires_compliance() {
    assert!(proof_from_payload(vec![1], vec![], [0; 32]).is_ok());
    assert!(matches!(proof_from_payload(vec![0], vec![], [0; 32]), Err(ProofError::Decode(_))));
}

#[test]
fn fulfillment_summary_previews_in_hex() {
    let f = Fulfillment::new(vec![0x0f, 0xa0], (0u8..10).collect(), [0xab; 32]);
    assert_eq!(
        f.str_format,
        "Journal (hex): 0fa0\nSeal (hex): 0001020304050607...\nID (hex): abababababababab..."
    );
    assert_eq!(f.id, [0xab; 32]);
}

#[test]
fn error_descriptions_name_their_kind() {
    assert_eq!(ProofError::Decode("x".to_string()).describe(), "journal could not be decoded: x");
    assert_eq!(ProofError::Timeout("y".to_string()).describe(), "proof fulfillment timed out: y");
    assert_eq!(
        ProofError::Submission("z".to_string()).describe(),
        "proof request submission failed: z"
    );
}
