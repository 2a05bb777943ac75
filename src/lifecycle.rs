//! The decisions around a proof request: answer from the cache, refuse,
//! submit, and turn what the proof network delivers into a response.
//!
//! The network itself is driven by the caller: `begin` says whether a proof
//! request is to be submitted and with what, and `finish` takes what came
//! back.
use vstd::prelude::*;
use crate::cache::{cache_key, cache_response, get_cached_response, ResponseCache};
use crate::policy::{evaluate, outcome_of};
use crate::types::{
    ComplianceOutcome, ComplianceRequest, Fulfillment, FulfillmentView, OutcomeView, RequestView,
    ResponseView, UserRequest, UserResponse, proof_summary,
};

verus! {

/// Time the offer's price takes to ramp up.
pub const RAMP_UP_PERIOD: u32 = 30;

/// Time a prover may hold the request locked.
pub const LOCK_TIMEOUT: u32 = 500;

/// Time after which the request expires.
pub const REQUEST_TIMEOUT: u32 = 900;

/// Seconds between two checks for fulfillment.
pub const POLL_INTERVAL_SECS: u64 = 10;

/// The terms offered to provers.
#[derive(Debug, Clone, Copy, PartialEq, Eq, Structural)]
pub struct OfferParams {
    pub ramp_up_period: u32,
    pub lock_timeout: u32,
    pub timeout: u32,
}

/// A proof request to submit: the guest's input, the offer, and how often
/// to check for fulfillment.
#[derive(Debug)]
pub struct ProofJob {
    pub stdin: Vec<u8>,
    pub offer: OfferParams,
    pub poll_interval_secs: u64,
}

/// What can go wrong while obtaining a proof; each carries a description.
#[derive(Debug)]
pub enum ProofError {
    /// The request could not be placed.
    Submission(String),
    /// The request was not fulfilled before it expired.
    Timeout(String),
    /// The journal was malformed or did not hold what was expected.
    Decode(String),
}

pub open spec fn describe_error(e: ProofError) -> Seq<char> {
    match e {
        ProofError::Submission(d) => "proof request submission failed: "@ + d@,
        ProofError::Timeout(d) => "proof fulfillment timed out: "@ + d@,
        ProofError::Decode(d) => decode_failure(d@),
    }
}

/// The description of a decode error with detail `d`.
pub open spec fn decode_failure(d: Seq<char>) -> Seq<char> {
    "journal could not be decoded: "@ + d
}

pub open spec fn unaligned_journal() -> Seq<char> {
    "journal length is not a whole number of words"@
}

pub open spec fn not_attested() -> Seq<char> {
    "journal does not attest compliance"@
}

impl ProofError {
    /// A description of the error, naming its kind.
    pub fn describe(&self) -> (r: String)
        ensures
            r@ == describe_error(*self),
    {
        match self {
            ProofError::Submission(d) => {
                let mut s = String::from_str("proof request submission failed: ");
                s.append(d.as_str());
                s
            },
            ProofError::Timeout(d) => {
                let mut s = String::from_str("proof fulfillment timed out: ");
                s.append(d.as_str());
                s
            },
            ProofError::Decode(d) => {
                let mut s = String::from_str("journal could not be decoded: ");
                s.append(d.as_str());
                s
            },
        }
    }
}

/// What the proof network delivered for a request.
#[derive(Debug)]
pub struct FulfillmentData {
    pub journal: Vec<u8>,
    pub seal: Vec<u8>,
    /// The request identifier, as 32 big-endian bytes.
    pub id: [u8; 32],
}

/// What to do next with a request.
#[derive(Debug)]
pub enum Step {
    /// Answer at once.
    Respond(UserResponse),
    /// Submit this proof request, then hand its result to `finish`.
    Submit(ProofJob),
}

/// The answer to a request that the rules refuse: the outcome, no proof, and
/// the reasons as the message.
pub open spec fn denial_response(o: OutcomeView) -> ResponseView {
    ResponseView { outcome: o, proof: None, message: o.reason }
}

pub open spec fn proven_message() -> Seq<char> {
    "Compliance proven with zkVM"@
}

/// The answer to an allowed request whose proof was obtained.
pub open spec fn proven_response(r: RequestView, f: FulfillmentView) -> ResponseView {
    ResponseView { outcome: outcome_of(r), proof: Some(f), message: proven_message() }
}

/// The answer where obtaining the proof failed: refused, with the error's
/// description in the reason, no headroom and no proof.
pub open spec fn failure_response(r: RequestView, description: Seq<char>) -> ResponseView {
    ResponseView {
        outcome: OutcomeView {
            user: r.user,
            pool_id: r.pool_id,
            allowed: false,
            reason: "System error: "@ + description,
            max_allocation: 0,
            requested_amount: r.requested_amount,
            exposure_musd: r.exposure_musd,
        },
        proof: None,
        message: "Proof generation failed: "@ + description,
    }
}

/// The input the guest program is given for an allowed request.
pub open spec fn allowed_stdin() -> Seq<u8> {
    seq![1u8, 0u8, 0u8, 0u8]
}

/// The first decision on a request. A stored response is returned as it is,
/// without evaluating again; otherwise a refused request is answered with
/// its outcome, and an allowed one is to be proven.
pub fn begin(cache: &ResponseCache, request: &ComplianceRequest) -> (s: Step)
    requires
        cache.wf(),
    ensures
        match s {
            Step::Respond(resp) => if cache@.contains_key(cache_key(request@)) {
                resp@ == cache@[cache_key(request@)]
            } else {
                !outcome_of(request@).allowed && resp@ == denial_response(outcome_of(request@))
            },
            Step::Submit(job) => {
                &&& !cache@.contains_key(cache_key(request@))
                &&& outcome_of(request@).allowed
                &&& job.stdin@ == allowed_stdin()
                &&& job.offer == (OfferParams {
                    ramp_up_period: RAMP_UP_PERIOD,
                    lock_timeout: LOCK_TIMEOUT,
                    timeout: REQUEST_TIMEOUT,
                })
                &&& job.poll_interval_secs == POLL_INTERVAL_SECS
            },
        },
{
    if let Some(cached) = get_cached_response(cache, request) {
        return Step::Respond(cached);
    }
    let outcome = evaluate(request);
    if !outcome.allowed {
        let message = outcome.reason.clone();
        return Step::Respond(UserResponse { outcome, proof: None, message });
    }
    let stdin = UserRequest { is_compliant: true }.to_guest_stdin();
    Step::Submit(ProofJob {
        stdin,
        offer: OfferParams {
            ramp_up_period: RAMP_UP_PERIOD,
            lock_timeout: LOCK_TIMEOUT,
            timeout: REQUEST_TIMEOUT,
        },
        poll_interval_secs: POLL_INTERVAL_SECS,
    })
}


/// What the guest committed, read back from the journal's words (each four
/// bytes, little-endian) as a byte vector; `None` where the words do not
/// hold one.
pub uninterp spec fn journal_payload(journal: Seq<u8>) -> Option<Seq<u8>>;

/// Relies on risc0_zkvm::serde::from_slice, read as a `Vec<u8>`: the vector
/// the words encode, or its error where they encode none. It panics on a
/// word-aligned slice whose length is not a whole number of words, which
/// `requires` leaves out.
#[verifier::external_body]
fn decode_journal_words(journal: &[u8]) -> (r: Result<Vec<u8>, String>)
    requires
        journal@.len() % 4 == 0,
    ensures
        match r {
            Ok(v) => journal_payload(journal@) == Some(v@),
            Err(_) => journal_payload(journal@) is None,
        },
{
    match risc0_zkvm::serde::from_slice::<Vec<u8>, u8>(journal) {
        Ok(v) => Ok(v),
        Err(e) => Err(e.to_string()),
    }
}

/// The payload the guest commits for a compliant request.
pub open spec fn compliant_payload() -> Seq<u8> {
    seq![1u8]
}

/// Reads what the guest committed from a journal. A journal that is not a
/// whole number of words, or whose words hold no byte vector, is a decode
/// error.
pub fn decode_journal(journal: &Vec<u8>) -> (r: Result<Vec<u8>, ProofError>)
    ensures
        journal@.len() % 4 != 0 ==> (r matches Err(ProofError::Decode(d)) && d@ == unaligned_journal()),
        journal@.len() % 4 == 0 ==> match r {
            Ok(v) => journal_payload(journal@) == Some(v@),
            Err(e) => journal_payload(journal@) is None && (e is Decode),
        },
{
    if journal.len() % 4 != 0 {
        return Err(ProofError::Decode(String::from_str("journal length is not a whole number of words")));
    }
    match decode_journal_words(journal.as_slice()) {
        Ok(v) => Ok(v),
        Err(d) => Err(ProofError::Decode(d)),
    }
}

/// Builds the proof from a decoded payload: it must attest compliance.
pub fn proof_from_payload(payload: Vec<u8>, seal: Vec<u8>, id: [u8; 32]) -> (r: Result<Fulfillment, ProofError>)
    ensures
        payload@ == compliant_payload() ==> (r matches Ok(f) && f@ == (FulfillmentView {
            journal: payload@,
            seal: seal@,
            id: id@,
            str_format: proof_summary(payload@, seal@, id@),
        })),
        payload@ != compliant_payload() ==> (r matches Err(ProofError::Decode(d)) && d@ == not_attested()),
{
    if payload.len() == 1 && payload[0] == 1 {
        assert(payload@ =~= compliant_payload());
        Ok(Fulfillment::new(payload, seal, id))
    } else {
        Err(ProofError::Decode(String::from_str("journal does not attest compliance")))
    }
}

/// Assembles the response once the proof network has answered, and stores
/// it where a proof was obtained. A failure leaves the cache as it was.
pub fn conclude(
    cache: &mut ResponseCache,
    request: &ComplianceRequest,
    obtained: Result<Fulfillment, ProofError>,
) -> (resp: UserResponse)
    requires
        old(cache).wf(),
    ensures
        final(cache).wf(),
        match obtained {
            Ok(f) => {
                &&& resp@ == proven_response(request@, f@)
                &&& final(cache)@ == old(cache)@.insert(cache_key(request@), resp@)
            },
            Err(e) => {
                &&& resp@ == failure_response(request@, describe_error(e))
                &&& final(cache)@ == old(cache)@
            },
        },
{
    match obtained {
        Ok(f) => {
            let resp = UserResponse {
                outcome: evaluate(request),
                proof: Some(f),
                message: String::from_str("Compliance proven with zkVM"),
            };
            cache_response(cache, request, &resp);
            resp
        },
        Err(e) => {
            let description = e.describe();
            let mut reason = String::from_str("System error: ");
            reason.append(description.as_str());
            let mut message = String::from_str("Proof generation failed: ");
            message.append(description.as_str());
            UserResponse {
                outcome: ComplianceOutcome {
                    user: request.user.clone(),
                    pool_id: request.pool_id,
                    allowed: false,
                    reason,
                    max_allocation: 0,
                    requested_amount: request.requested_amount,
                    exposure_musd: request.exposure_musd,
                },
                proof: None,
                message,
            }
        },
    }
}

/// The proof that a delivery carries: the decoded journal must attest
/// compliance.
pub open spec fn delivered_proof(d: FulfillmentData) -> Option<FulfillmentView> {
    if d.journal@.len() % 4 == 0 && journal_payload(d.journal@) == Some(compliant_payload()) {
        Some(FulfillmentView {
            journal: compliant_payload(),
            seal: d.seal@,
            id: d.id@,
            str_format: proof_summary(compliant_payload(), d.seal@, d.id@),
        })
    } else {
        None
    }
}

/// Takes what the proof network answered for a submitted request, decodes
/// the journal, and concludes: a proven response is stored and returned;
/// an error of the network or of decoding gives a failure response.
pub fn finish(
    cache: &mut ResponseCache,
    request: &ComplianceRequest,
    delivered: Result<FulfillmentData, ProofError>,
) -> (resp: UserResponse)
    requires
        old(cache).wf(),
    ensures
        final(cache).wf(),
        match delivered {
            Ok(d) => match delivered_proof(d) {
                Some(f) => {
                    &&& resp@ == proven_response(request@, f)
                    &&& final(cache)@ == old(cache)@.insert(cache_key(request@), resp@)
                },
                None => {
                    &&& d.journal@.len() % 4 != 0 ==> resp@ == failure_response(
                        request@,
                        decode_failure(unaligned_journal()),
                    )
                    &&& d.journal@.len() % 4 == 0 && journal_payload(d.journal@) is Some
                        ==> resp@ == failure_response(request@, decode_failure(not_attested()))
                    &&& exists|detail: Seq<char>|
                        resp@ == #[trigger] failure_response(request@, decode_failure(detail))
                    &&& final(cache)@ == old(cache)@
                },
            },
            Err(e) => {
                &&& resp@ == failure_response(request@, describe_error(e))
                &&& final(cache)@ == old(cache)@
            },
        },
{
    let obtained = match delivered {
        Ok(d) => {
            let FulfillmentData { journal, seal, id } = d;
            match decode_journal(&journal) {
                Ok(payload) => proof_from_payload(payload, seal, id),
                Err(e) => Err(e),
            }
        },
        Err(e) => Err(e),
    };
    conclude(cache, request, obtained)
}

} // verus!
