//! The data that flows through evaluation and proof handling.
use vstd::prelude::*;
use crate::text::{append_hex, append_hex_preview, hex_of, hex_preview};

verus! {

/// The pools a user may allocate into.
#[derive(Clone, Copy, Debug, PartialEq, Eq, Structural)]
pub enum PoolId {
    Gold,
    MoneyMarket,
    RealEstate,
}

/// A user's request to allocate into a pool, with the facts that the
/// compliance rules read.
#[derive(Debug)]
pub struct ComplianceRequest {
    pub user: String,
    pub pool_id: PoolId,
    pub residency: String,
    pub kyc_level: u8,
    pub aml_passed: bool,
    pub accredited_investor: bool,
    pub exposure_musd: u64,
    pub requested_amount: u64,
    pub risk_score: u8,
}

pub ghost struct RequestView {
    pub user: Seq<char>,
    pub pool_id: PoolId,
    pub residency: Seq<char>,
    pub kyc_level: u8,
    pub aml_passed: bool,
    pub accredited_investor: bool,
    pub exposure_musd: u64,
    pub requested_amount: u64,
    pub risk_score: u8,
}

impl View for ComplianceRequest {
    type V = RequestView;

    open spec fn view(&self) -> RequestView {
        RequestView {
            user: self.user@,
            pool_id: self.pool_id,
            residency: self.residency@,
            kyc_level: self.kyc_level,
            aml_passed: self.aml_passed,
            accredited_investor: self.accredited_investor,
            exposure_musd: self.exposure_musd,
            requested_amount: self.requested_amount,
            risk_score: self.risk_score,
        }
    }
}

/// The verdict on a request, with the reasons behind it.
#[derive(Debug)]
pub struct ComplianceOutcome {
    pub user: String,
    pub pool_id: PoolId,
    pub allowed: bool,
    pub reason: String,
    pub max_allocation: u64,
    pub requested_amount: u64,
    pub exposure_musd: u64,
}

pub ghost struct OutcomeView {
    pub user: Seq<char>,
    pub pool_id: PoolId,
    pub allowed: bool,
    pub reason: Seq<char>,
    pub max_allocation: u64,
    pub requested_amount: u64,
    pub exposure_musd: u64,
}

impl View for ComplianceOutcome {
    type V = OutcomeView;

    open spec fn view(&self) -> OutcomeView {
        OutcomeView {
            user: self.user@,
            pool_id: self.pool_id,
            allowed: self.allowed,
            reason: self.reason@,
            max_allocation: self.max_allocation,
            requested_amount: self.requested_amount,
            exposure_musd: self.exposure_musd,
        }
    }
}

impl ComplianceOutcome {
    /// A field-by-field copy.
    pub fn duplicate(&self) -> (r: ComplianceOutcome)
        ensures
            r@ == self@,
    {
        ComplianceOutcome {
            user: self.user.clone(),
            pool_id: self.pool_id,
            allowed: self.allowed,
            reason: self.reason.clone(),
            max_allocation: self.max_allocation,
            requested_amount: self.requested_amount,
            exposure_musd: self.exposure_musd,
        }
    }
}

/// The input handed to the guest program: whether the request was found
/// compliant.
#[derive(Debug)]
pub struct UserRequest {
    pub is_compliant: bool,
}

impl UserRequest {
    /// The guest's input: the flag as a 32-bit little-endian word.
    pub fn to_guest_stdin(&self) -> (r: Vec<u8>)
        ensures
            r@ == seq![if self.is_compliant { 1u8 } else { 0u8 }, 0u8, 0u8, 0u8],
    {
        let v: u8 = if self.is_compliant { 1 } else { 0 };
        let mut r: Vec<u8> = Vec::new();
        r.push(v);
        r.push(0);
        r.push(0);
        r.push(0);
        r
    }
}

/// The identifier of a published artifact, as the pinning service returns it.
#[derive(Debug)]
pub struct PinataData {
    pub cid: String,
}


/// A proof obtained from the proof network, with a readable summary.
#[derive(Debug)]
pub struct Fulfillment {
    pub journal: Vec<u8>,
    pub seal: Vec<u8>,
    /// The request identifier on the marketplace, as 32 big-endian bytes.
    pub id: [u8; 32],
    /// Human-readable representation.
    pub str_format: String,
}

pub ghost struct FulfillmentView {
    pub journal: Seq<u8>,
    pub seal: Seq<u8>,
    pub id: Seq<u8>,
    pub str_format: Seq<char>,
}

impl View for Fulfillment {
    type V = FulfillmentView;

    open spec fn view(&self) -> FulfillmentView {
        FulfillmentView {
            journal: self.journal@,
            seal: self.seal@,
            id: self.id@,
            str_format: self.str_format@,
        }
    }
}

/// The summary of a proof: the journal in full, previews of the seal and of
/// the request identifier, all in hexadecimal.
pub open spec fn proof_summary(journal: Seq<u8>, seal: Seq<u8>, id: Seq<u8>) -> Seq<char> {
    "Journal (hex): "@ + hex_of(journal) + "\nSeal (hex): "@ + hex_preview(seal)
        + "\nID (hex): "@ + hex_preview(id)
}

impl Fulfillment {
    pub fn new(journal: Vec<u8>, seal: Vec<u8>, id: [u8; 32]) -> (r: Fulfillment)
        ensures
            r@ == (FulfillmentView {
                journal: journal@,
                seal: seal@,
                id: id@,
                str_format: proof_summary(journal@, seal@, id@),
            }),
    {
        let mut str_format = String::from_str("Journal (hex): ");
        append_hex(&mut str_format, journal.as_slice());
        str_format.append("\nSeal (hex): ");
        append_hex_preview(&mut str_format, seal.as_slice());
        str_format.append("\nID (hex): ");
        append_hex_preview(&mut str_format, id.as_slice());
        Fulfillment { journal, seal, id, str_format }
    }

    /// A field-by-field copy.
    pub fn duplicate(&self) -> (r: Fulfillment)
        ensures
            r@ == self@,
    {
        Fulfillment {
            journal: self.journal.clone(),
            seal: self.seal.clone(),
            id: self.id,
            str_format: self.str_format.clone(),
        }
    }
}

/// What the caller receives: the outcome, a proof where one was obtained,
/// and a message.
#[derive(Debug)]
pub struct UserResponse {
    pub outcome: ComplianceOutcome,
    pub proof: Option<Fulfillment>,
    pub message: String,
}

pub ghost struct ResponseView {
    pub outcome: OutcomeView,
    pub proof: Option<FulfillmentView>,
    pub message: Seq<char>,
}

impl View for UserResponse {
    type V = ResponseView;

    open spec fn view(&self) -> ResponseView {
        ResponseView {
            outcome: self.outcome@,
            proof: match self.proof {
                Some(f) => Some(f@),
                None => None,
            },
            message: self.message@,
        }
    }
}

impl UserResponse {
    /// A field-by-field copy.
    pub fn duplicate(&self) -> (r: UserResponse)
        ensures
            r@ == self@,
    {
        let proof = match &self.proof {
            Some(f) => Some(f.duplicate()),
            None => None,
        };
        UserResponse {
            outcome: self.outcome.duplicate(),
            proof,
            message: self.message.clone(),
        }
    }
}

} // verus!
