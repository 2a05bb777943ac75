//! The per-pool compliance rules and their evaluation.
use vstd::prelude::*;
use crate::text::{append_decimal, decimal, join_with, lemma_join_push};
use crate::types::{ComplianceOutcome, ComplianceRequest, OutcomeView, PoolId, RequestView};

verus! {

// ---------------------------------------------------------------------------
// ASCII case
// ---------------------------------------------------------------------------

pub open spec fn upper_char(c: char) -> char {
    if 'a' <= c && c <= 'z' {
        ((c as u32) - 32) as char
    } else {
        c
    }
}

pub open spec fn lower_char(c: char) -> char {
    if 'A' <= c && c <= 'Z' {
        ((c as u32) + 32) as char
    } else {
        c
    }
}

/// `s` with each ASCII letter in upper case; other characters unchanged.
pub open spec fn ascii_upper(s: Seq<char>) -> Seq<char> {
    s.map_values(|c: char| upper_char(c))
}

/// `s` with each ASCII letter in lower case; other characters unchanged.
pub open spec fn ascii_lower(s: Seq<char>) -> Seq<char> {
    s.map_values(|c: char| lower_char(c))
}

/// Relies on str::to_ascii_uppercase: each ASCII letter is mapped to upper
/// case, every other character is kept.
#[verifier::external_body]
fn to_ascii_uppercase(s: &str) -> (r: String)
    ensures
        r@ == ascii_upper(s@),
{
    s.to_ascii_uppercase()
}

/// Relies on str::eq_ignore_ascii_case: true exactly when the two strings
/// are equal once both are brought to ASCII lower case.
#[verifier::external_body]
fn eq_ignore_ascii_case(a: &str, b: &str) -> (r: bool)
    ensures
        r == (ascii_lower(a@) == ascii_lower(b@)),
{
    a.eq_ignore_ascii_case(b)
}

// ---------------------------------------------------------------------------
// Rules
// ---------------------------------------------------------------------------

/// The rules of one pool.
pub struct PoolPolicy {
    pub name: &'static str,
    pub allowed_residencies: Vec<&'static str>,
    pub banned_residencies: Vec<&'static str>,
    pub max_single_trade: u64,
    pub max_total_exposure: u64,
    pub min_kyc_level: u8,
    pub max_risk_score: u8,
    pub require_accreditation: bool,
    pub pool_id: PoolId,
}

pub ghost struct PolicyView {
    pub name: Seq<char>,
    pub allowed_residencies: Seq<Seq<char>>,
    pub banned_residencies: Seq<Seq<char>>,
    pub max_single_trade: u64,
    pub max_total_exposure: u64,
    pub min_kyc_level: u8,
    pub max_risk_score: u8,
    pub require_accreditation: bool,
    pub pool_id: PoolId,
}

pub open spec fn codes(list: Seq<&'static str>) -> Seq<Seq<char>> {
    list.map_values(|s: &'static str| s@)
}

impl View for PoolPolicy {
    type V = PolicyView;

    open spec fn view(&self) -> PolicyView {
        PolicyView {
            name: self.name@,
            allowed_residencies: codes(self.allowed_residencies@),
            banned_residencies: codes(self.banned_residencies@),
            max_single_trade: self.max_single_trade,
            max_total_exposure: self.max_total_exposure,
            min_kyc_level: self.min_kyc_level,
            max_risk_score: self.max_risk_score,
            require_accreditation: self.require_accreditation,
            pool_id: self.pool_id,
        }
    }
}

/// The rules of each pool.
pub open spec fn policy_of(pool_id: PoolId) -> PolicyView {
    match pool_id {
        PoolId::Gold => PolicyView {
            name: "Gold"@,
            allowed_residencies: seq!["US"@, "CA"@, "UK"@, "DE"@, "FR"@, "SG"@, "AE"@],
            banned_residencies: seq![],
            max_single_trade: 50_000,
            max_total_exposure: 150_000,
            min_kyc_level: 2,
            max_risk_score: 4,
            require_accreditation: false,
            pool_id: PoolId::Gold,
        },
        PoolId::MoneyMarket => PolicyView {
            name: "Money Market"@,
            allowed_residencies: seq!["US"@, "CA"@, "UK"@, "DE"@, "FR"@],
            banned_residencies: seq![],
            max_single_trade: 25_000,
            max_total_exposure: 50_000,
            min_kyc_level: 3,
            max_risk_score: 3,
            require_accreditation: true,
            pool_id: PoolId::MoneyMarket,
        },
        PoolId::RealEstate => PolicyView {
            name: "Real Estate"@,
            allowed_residencies: seq![],
            banned_residencies: seq!["RU"@, "KP"@, "IR"@, "SY"@],
            max_single_trade: 200_000,
            max_total_exposure: 500_000,
            min_kyc_level: 2,
            max_risk_score: 5,
            require_accreditation: true,
            pool_id: PoolId::RealEstate,
        },
    }
}


/// The rules of `pool_id`.
pub fn policy_for(pool_id: PoolId) -> (p: PoolPolicy)
    ensures
        p@ == policy_of(pool_id),
{
    let mut allowed: Vec<&'static str> = Vec::new();
    let mut banned: Vec<&'static str> = Vec::new();
    match pool_id {
        PoolId::Gold => {
            allowed.push("US");
            allowed.push("CA");
            allowed.push("UK");
            allowed.push("DE");
            allowed.push("FR");
            allowed.push("SG");
            allowed.push("AE");
            assert(codes(allowed@) =~= seq!["US"@, "CA"@, "UK"@, "DE"@, "FR"@, "SG"@, "AE"@]);
            assert(codes(banned@) =~= seq![]);
            PoolPolicy {
                name: "Gold",
                allowed_residencies: allowed,
                banned_residencies: banned,
                max_single_trade: 50_000,
                max_total_exposure: 150_000,
                min_kyc_level: 2,
                max_risk_score: 4,
                require_accreditation: false,
                pool_id: PoolId::Gold,
            }
        },
        PoolId::MoneyMarket => {
            allowed.push("US");
            allowed.push("CA");
            allowed.push("UK");
            allowed.push("DE");
            allowed.push("FR");
            assert(codes(allowed@) =~= seq!["US"@, "CA"@, "UK"@, "DE"@, "FR"@]);
            assert(codes(banned@) =~= seq![]);
            PoolPolicy {
                name: "Money Market",
                allowed_residencies: allowed,
                banned_residencies: banned,
                max_single_trade: 25_000,
                max_total_exposure: 50_000,
                min_kyc_level: 3,
                max_risk_score: 3,
                require_accreditation: true,
                pool_id: PoolId::MoneyMarket,
            }
        },
        PoolId::RealEstate => {
            banned.push("RU");
            banned.push("KP");
            banned.push("IR");
            banned.push("SY");
            assert(codes(allowed@) =~= seq![]);
            assert(codes(banned@) =~= seq!["RU"@, "KP"@, "IR"@, "SY"@]);
            PoolPolicy {
                name: "Real Estate",
                allowed_residencies: allowed,
                banned_residencies: banned,
                max_single_trade: 200_000,
                max_total_exposure: 500_000,
                min_kyc_level: 2,
                max_risk_score: 5,
                require_accreditation: true,
                pool_id: PoolId::RealEstate,
            }
        },
    }
}

/// Whether `v` matches an entry of `list`, ignoring ASCII case.
pub open spec fn listed(list: Seq<Seq<char>>, v: Seq<char>) -> bool {
    exists|i: int| 0 <= i < list.len() && ascii_lower(#[trigger] list[i]) == ascii_lower(v)
}

/// Whether `value` matches an entry of `list`, ignoring ASCII case.
pub fn contains(list: &[&'static str], value: &str) -> (r: bool)
    ensures
        r == listed(codes(list@), value@),
{
    let mut i: usize = 0;
    while i < list.len()
        invariant
            0 <= i <= list@.len(),
            forall|j: int| 0 <= j < i ==> ascii_lower(#[trigger] list@[j]@) != ascii_lower(value@),
        decreases list@.len() - i,
    {
        if eq_ignore_ascii_case(list[i], value) {
            assert(codes(list@)[i as int] == list@[i as int]@);
            return true;
        }
        i += 1;
    }
    assert forall|j: int| 0 <= j < codes(list@).len() implies ascii_lower(#[trigger] codes(list@)[j]) != ascii_lower(value@) by {
        assert(codes(list@)[j] == list@[j]@);
    }
    false
}


// ---------------------------------------------------------------------------
// Reasons
// ---------------------------------------------------------------------------

pub open spec fn msg_aml() -> Seq<char> {
    "AML screening failed"@
}

pub open spec fn msg_no_residency() -> Seq<char> {
    "Residency not provided"@
}

pub open spec fn msg_not_open(name: Seq<char>, res: Seq<char>) -> Seq<char> {
    name + " pool is not open to residency "@ + res
}

pub open spec fn msg_blocked(name: Seq<char>, res: Seq<char>) -> Seq<char> {
    "Residency "@ + res + " is blocked for "@ + name + " pool"@
}

pub open spec fn msg_kyc(name: Seq<char>, min: u8, provided: u8) -> Seq<char> {
    name + " pool requires KYC level "@ + decimal(min as nat) + " or higher (provided "@
        + decimal(provided as nat) + ")"@
}

pub open spec fn msg_risk(name: Seq<char>, score: u8, max: u8) -> Seq<char> {
    "Risk score "@ + decimal(score as nat) + " exceeds "@ + name + " pool limit "@
        + decimal(max as nat)
}

pub open spec fn msg_accreditation(name: Seq<char>) -> Seq<char> {
    name + " pool is limited to accredited investors"@
}

pub open spec fn msg_single_trade(name: Seq<char>, requested: u64, max: u64) -> Seq<char> {
    "Requested amount "@ + decimal(requested as nat) + " mUSD exceeds "@ + name
        + " single-trade limit of "@ + decimal(max as nat) + " mUSD"@
}

pub open spec fn msg_exposure(name: Seq<char>, projected: u64, cap: u64) -> Seq<char> {
    "Projected exposure "@ + decimal(projected as nat) + " mUSD exceeds "@ + name
        + " pool cap of "@ + decimal(cap as nat) + " mUSD"@
}

pub open spec fn msg_approval(name: Seq<char>, headroom: u64, requested: u64) -> Seq<char> {
    name + " pool approval: user may allocate up to "@ + decimal(headroom as nat)
        + " mUSD more (requested "@ + decimal(requested as nat) + ")."@
}

/// The separator between failure reasons.
pub open spec fn separator() -> Seq<char> {
    " | "@
}

/// The reasons in `fs`, in order, with the separator between each two.
pub open spec fn join(fs: Seq<Seq<char>>) -> Seq<char> {
    join_with(fs, separator())
}

pub open spec fn add_if(fs: Seq<Seq<char>>, cond: bool, msg: Seq<char>) -> Seq<Seq<char>> {
    if cond {
        fs.push(msg)
    } else {
        fs
    }
}

/// `a + b`, capped at the largest `u64`.
pub open spec fn saturating_sum(a: u64, b: u64) -> u64 {
    if a + b > u64::MAX {
        u64::MAX
    } else {
        (a + b) as u64
    }
}

/// `a - b`, or zero where `b` exceeds `a`.
pub open spec fn saturating_diff(a: u64, b: u64) -> u64 {
    if a >= b {
        (a - b) as u64
    } else {
        0
    }
}

/// The exposure the user would hold once the request is granted.
pub open spec fn projected_exposure(r: RequestView) -> u64 {
    saturating_sum(r.exposure_musd, r.requested_amount)
}

/// The reasons for refusing `r`, in the order in which the rules are checked.
pub open spec fn failures(r: RequestView) -> Seq<Seq<char>> {
    let p = policy_of(r.pool_id);
    let res = ascii_upper(r.residency);
    let f_aml = add_if(Seq::empty(), !r.aml_passed, msg_aml());
    let f_res = if res.len() == 0 {
        f_aml.push(msg_no_residency())
    } else {
        add_if(
            add_if(
                f_aml,
                p.allowed_residencies.len() > 0 && !listed(p.allowed_residencies, res),
                msg_not_open(p.name, res),
            ),
            p.banned_residencies.len() > 0 && listed(p.banned_residencies, res),
            msg_blocked(p.name, res),
        )
    };
    let f_kyc = add_if(
        f_res,
        r.kyc_level < p.min_kyc_level,
        msg_kyc(p.name, p.min_kyc_level, r.kyc_level),
    );
    let f_risk = add_if(
        f_kyc,
        r.risk_score > p.max_risk_score,
        msg_risk(p.name, r.risk_score, p.max_risk_score),
    );
    let f_acc = add_if(
        f_risk,
        p.require_accreditation && !r.accredited_investor,
        msg_accreditation(p.name),
    );
    let f_trade = add_if(
        f_acc,
        r.requested_amount > p.max_single_trade,
        msg_single_trade(p.name, r.requested_amount, p.max_single_trade),
    );
    add_if(
        f_trade,
        projected_exposure(r) > p.max_total_exposure,
        msg_exposure(p.name, projected_exposure(r), p.max_total_exposure),
    )
}

/// How much more the user may allocate into the pool: the pool's exposure
/// cap less the current exposure, never below zero.
pub open spec fn max_allocation_of(r: RequestView) -> u64 {
    saturating_diff(policy_of(r.pool_id).max_total_exposure, r.exposure_musd)
}

/// The outcome of evaluating `r`.
pub open spec fn outcome_of(r: RequestView) -> OutcomeView {
    let p = policy_of(r.pool_id);
    let fs = failures(r);
    let allowed = fs.len() == 0;
    OutcomeView {
        user: r.user,
        pool_id: p.pool_id,
        allowed,
        reason: if allowed {
            msg_approval(p.name, max_allocation_of(r), r.requested_amount)
        } else {
            join(fs)
        },
        max_allocation: max_allocation_of(r),
        requested_amount: r.requested_amount,
        exposure_musd: r.exposure_musd,
    }
}

/// Appends `msg` to the reasons gathered so far in `reason`; `any` tells
/// whether there were some.
fn add_failure(reason: &mut String, any: &mut bool, msg: &str)
    ensures
        final(reason)@ == if *old(any) { old(reason)@ + separator() + msg@ } else { old(reason)@ + msg@ },
        *final(any),
{
    if *any {
        reason.append(" | ");
    }
    reason.append(msg);
    *any = true;
}

fn not_open_message(name: &str, res: &str) -> (r: String)
    ensures
        r@ == msg_not_open(name@, res@),
{
    let mut s = String::from_str(name);
    s.append(" pool is not open to residency ");
    s.append(res);
    s
}

fn blocked_message(name: &str, res: &str) -> (r: String)
    ensures
        r@ == msg_blocked(name@, res@),
{
    let mut s = String::from_str("Residency ");
    s.append(res);
    s.append(" is blocked for ");
    s.append(name);
    s.append(" pool");
    s
}

fn kyc_message(name: &str, min: u8, provided: u8) -> (r: String)
    ensures
        r@ == msg_kyc(name@, min, provided),
{
    let mut s = String::from_str(name);
    s.append(" pool requires KYC level ");
    append_decimal(&mut s, min as u64);
    s.append(" or higher (provided ");
    append_decimal(&mut s, provided as u64);
    s.append(")");
    s
}

fn risk_message(name: &str, score: u8, max: u8) -> (r: String)
    ensures
        r@ == msg_risk(name@, score, max),
{
    let mut s = String::from_str("Risk score ");
    append_decimal(&mut s, score as u64);
    s.append(" exceeds ");
    s.append(name);
    s.append(" pool limit ");
    append_decimal(&mut s, max as u64);
    s
}

fn accreditation_message(name: &str) -> (r: String)
    ensures
        r@ == msg_accreditation(name@),
{
    let mut s = String::from_str(name);
    s.append(" pool is limited to accredited investors");
    s
}

fn single_trade_message(name: &str, requested: u64, max: u64) -> (r: String)
    ensures
        r@ == msg_single_trade(name@, requested, max),
{
    let mut s = String::from_str("Requested amount ");
    append_decimal(&mut s, requested);
    s.append(" mUSD exceeds ");
    s.append(name);
    s.append(" single-trade limit of ");
    append_decimal(&mut s, max);
    s.append(" mUSD");
    s
}

fn exposure_message(name: &str, projected: u64, cap: u64) -> (r: String)
    ensures
        r@ == msg_exposure(name@, projected, cap),
{
    let mut s = String::from_str("Projected exposure ");
    append_decimal(&mut s, projected);
    s.append(" mUSD exceeds ");
    s.append(name);
    s.append(" pool cap of ");
    append_decimal(&mut s, cap);
    s.append(" mUSD");
    s
}

fn approval_message(name: &str, headroom: u64, requested: u64) -> (r: String)
    ensures
        r@ == msg_approval(name@, headroom, requested),
{
    let mut s = String::from_str(name);
    s.append(" pool approval: user may allocate up to ");
    append_decimal(&mut s, headroom);
    s.append(" mUSD more (requested ");
    append_decimal(&mut s, requested);
    s.append(").");
    s
}

// ---------------------------------------------------------------------------
// Evaluation
// ---------------------------------------------------------------------------

/// Evaluates `request` against the rules of its pool. Every rule is checked;
/// the request is allowed exactly when none of them fails.
#[verifier::rlimit(40)]
pub fn evaluate(request: &ComplianceRequest) -> (out: ComplianceOutcome)
    ensures
        out@ == outcome_of(request@),
        out.allowed == (failures(request@).len() == 0),
        out.max_allocation == saturating_diff(
            policy_of(request.pool_id).max_total_exposure,
            request.exposure_musd,
        ),
{
    let policy = policy_for(request.pool_id);
    let normalized = to_ascii_uppercase(request.residency.as_str());
    let ghost r = request@;
    let ghost p = policy_of(r.pool_id);
    let ghost res = ascii_upper(r.residency);

    let mut reason = String::new();
    let mut any = false;
    let ghost mut fs: Seq<Seq<char>> = Seq::empty();

    if !request.aml_passed {
        let m = String::from_str("AML screening failed");
        proof { lemma_join_push(fs, separator(), m@); }
        add_failure(&mut reason, &mut any, m.as_str());
        proof { fs = fs.push(m@); }
    }
    assert(fs == add_if(Seq::empty(), !r.aml_passed, msg_aml()));
    assert(reason@ == join(fs) && any == (fs.len() > 0));

    if normalized.as_str().is_empty() {
        let m = String::from_str("Residency not provided");
        proof { lemma_join_push(fs, separator(), m@); }
        add_failure(&mut reason, &mut any, m.as_str());
        proof { fs = fs.push(m@); }
    } else {
        if policy.allowed_residencies.len() > 0
            && !contains(policy.allowed_residencies.as_slice(), normalized.as_str())
        {
            let m = not_open_message(policy.name, normalized.as_str());
            proof { lemma_join_push(fs, separator(), m@); }
            add_failure(&mut reason, &mut any, m.as_str());
            proof { fs = fs.push(m@); }
        }
        if policy.banned_residencies.len() > 0
            && contains(policy.banned_residencies.as_slice(), normalized.as_str())
        {
            let m = blocked_message(policy.name, normalized.as_str());
            proof { lemma_join_push(fs, separator(), m@); }
            add_failure(&mut reason, &mut any, m.as_str());
            proof { fs = fs.push(m@); }
        }
    }

    if request.kyc_level < policy.min_kyc_level {
        let m = kyc_message(policy.name, policy.min_kyc_level, request.kyc_level);
        proof { lemma_join_push(fs, separator(), m@); }
        add_failure(&mut reason, &mut any, m.as_str());
        proof { fs = fs.push(m@); }
    }

    if request.risk_score > policy.max_risk_score {
        let m = risk_message(policy.name, request.risk_score, policy.max_risk_score);
        proof { lemma_join_push(fs, separator(), m@); }
        add_failure(&mut reason, &mut any, m.as_str());
        proof { fs = fs.push(m@); }
    }

    if policy.require_accreditation && !request.accredited_investor {
        let m = accreditation_message(policy.name);
        proof { lemma_join_push(fs, separator(), m@); }
        add_failure(&mut reason, &mut any, m.as_str());
        proof { fs = fs.push(m@); }
    }

    if request.requested_amount > policy.max_single_trade {
        let m = single_trade_message(
            policy.name,
            request.requested_amount,
            policy.max_single_trade,
        );
        proof { lemma_join_push(fs, separator(), m@); }
        add_failure(&mut reason, &mut any, m.as_str());
        proof { fs = fs.push(m@); }
    }

    let projected = request.exposure_musd.saturating_add(request.requested_amount);
    if projected > policy.max_total_exposure {
        let m = exposure_message(policy.name, projected, policy.max_total_exposure);
        proof { lemma_join_push(fs, separator(), m@); }
        add_failure(&mut reason, &mut any, m.as_str());
        proof { fs = fs.push(m@); }
    }
    assert(fs == failures(r));

    let allowed = !any;
    let max_allocation = policy.max_total_exposure.saturating_sub(request.exposure_musd);
    let reason = if allowed {
        approval_message(policy.name, max_allocation, request.requested_amount)
    } else {
        reason
    };

    ComplianceOutcome {
        user: request.user.clone(),
        pool_id: policy.pool_id,
        allowed,
        reason,
        max_allocation,
        requested_amount: request.requested_amount,
        exposure_musd: request.exposure_musd,
    }
}


// ---------------------------------------------------------------------------
// Laws
// ---------------------------------------------------------------------------

/// Evaluation depends on the request alone: two evaluations of the same
/// request give the same outcome.
pub proof fn lemma_evaluate_idempotent(a: RequestView, b: RequestView)
    requires
        a == b,
    ensures
        outcome_of(a) == outcome_of(b),
{
}

/// An outcome is allowed exactly when no rule failed, and an allowed outcome
/// carries the approval message rather than any failure reason.
pub proof fn lemma_allowed_iff_no_failure(r: RequestView)
    ensures
        outcome_of(r).allowed <==> failures(r).len() == 0,
        outcome_of(r).allowed ==> outcome_of(r).reason == msg_approval(
            policy_of(r.pool_id).name,
            max_allocation_of(r),
            r.requested_amount,
        ),
{
}

/// The headroom is the pool's exposure cap less the current exposure, never
/// below zero, whether or not the request is allowed.
pub proof fn lemma_headroom(r: RequestView)
    ensures
        outcome_of(r).max_allocation as int == if policy_of(r.pool_id).max_total_exposure
            >= r.exposure_musd {
            policy_of(r.pool_id).max_total_exposure - r.exposure_musd
        } else {
            0
        },
{
}

/// A request that breaks only the single-trade limit fails for exactly that
/// one reason.
pub proof fn lemma_single_trade_alone(r: RequestView)
    requires
        r.aml_passed,
        ascii_upper(r.residency).len() > 0,
        policy_of(r.pool_id).allowed_residencies.len() > 0 ==> listed(
            policy_of(r.pool_id).allowed_residencies,
            ascii_upper(r.residency),
        ),
        policy_of(r.pool_id).banned_residencies.len() > 0 ==> !listed(
            policy_of(r.pool_id).banned_residencies,
            ascii_upper(r.residency),
        ),
        r.kyc_level >= policy_of(r.pool_id).min_kyc_level,
        r.risk_score <= policy_of(r.pool_id).max_risk_score,
        policy_of(r.pool_id).require_accreditation ==> r.accredited_investor,
        r.requested_amount > policy_of(r.pool_id).max_single_trade,
        projected_exposure(r) <= policy_of(r.pool_id).max_total_exposure,
    ensures
        failures(r) == seq![
            msg_single_trade(
                policy_of(r.pool_id).name,
                r.requested_amount,
                policy_of(r.pool_id).max_single_trade,
            ),
        ],
        !outcome_of(r).allowed,
{
    assert(failures(r) =~= seq![
        msg_single_trade(
            policy_of(r.pool_id).name,
            r.requested_amount,
            policy_of(r.pool_id).max_single_trade,
        ),
    ]);
}

/// With the exposure at the largest `u64` and a positive amount requested,
/// the projected exposure saturates at the largest `u64`, the exposure rule
/// fails last, and the request is refused.
pub proof fn lemma_saturated_exposure(r: RequestView)
    requires
        r.exposure_musd == u64::MAX,
        r.requested_amount > 0,
    ensures
        projected_exposure(r) == u64::MAX,
        failures(r).last() == msg_exposure(
            policy_of(r.pool_id).name,
            u64::MAX,
            policy_of(r.pool_id).max_total_exposure,
        ),
        !outcome_of(r).allowed,
{
}

} // verus!
