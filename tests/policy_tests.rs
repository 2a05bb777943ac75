use compliance_core::policy::{contains, evaluate, policy_for};
use compliance_core::types::{ComplianceRequest, PoolId};

fn request(pool_id: PoolId, residency: &str) -> ComplianceRequest {
    ComplianceRequest {
        user: "0xabc".to_string(),
        pool_id,
        residency: residency.to_string(),
        kyc_level: 3,
        aml_passed: true,
        accredited_investor: true,
        exposure_musd: 0,
        requested_amount: 1_000,
        risk_score: 1,
    }
}

#[test]
fn gold_pool_approval() {
    let r = ComplianceRequest {
        user: "0x1".to_string(),
        pool_id: PoolId::Gold,
        residency: "US".to_string(),
        kyc_level: 2,
        aml_passed: true,
        accredited_investor: false,
        exposure_musd: 20_000,
        requested_amount: 10_000,
        risk_score: 3,
    };
    let o = evaluate(&r);
    assert!(o.allowed);
    assert_eq!(o.max_allocation, 130_000);
    assert!(o.reason.contains("Gold pool approval"));
    assert_eq!(
        o.reason,
        "Gold pool approval: user may allocate up to 130000 mUSD more (requested 10000)."
    );
    assert_eq!(o.user, "0x1");
    assert_eq!(o.pool_id, PoolId::Gold);
    assert_eq!(o.requested_amount, 10_000);
    assert_eq!(o.exposure_musd, 20_000);
}

#[test]
fn money_market_kyc_and_accreditation() {
    let r = ComplianceRequest {
        user: "0x2".to_string(),
        pool_id: PoolId::MoneyMarket,
        residency: "US".to_string(),
        kyc_level: 2,
        aml_passed: true,
        accredited_investor: false,
        exposure_musd: 0,
        requested_amount: 10_000,
        risk_score: 1,
    };
    let o = evaluate(&r);
    assert!(!o.allowed);
    assert_eq!(
        o.reason,
        "Money Market pool requires KYC level 3 or higher (provided 2) | \
         Money Market pool is limited to accredited investors"
    );
    assert_eq!(o.max_allocation, 50_000);
}

#[test]
fn real_estate_blocked_residency() {
    let mut r = request(PoolId::RealEstate, "RU");
    r.exposure_musd = 120_000;
    let o = evaluate(&r);
    assert!(!o.allowed);
    assert_eq!(o.reason, "Residency RU is blocked for Real Estate pool");
    assert_eq!(o.max_allocation, 500_000 - 120_000);
}

#[test]
fn residency_is_case_insensitive() {
    let o = evaluate(&request(PoolId::RealEstate, "ru"));
    assert_eq!(o.reason, "Residency RU is blocked for Real Estate pool");
    let o = evaluate(&request(PoolId::Gold, "sg"));
    assert!(o.allowed);
}

#[test]
fn single_trade_limit_alone() {
    let mut r = request(PoolId::Gold, "CA");
    r.requested_amount = 60_000;
    let o = evaluate(&r);
    assert!(!o.allowed);
    assert_eq!(
        o.reason,
        "Requested amount 60000 mUSD exceeds Gold single-trade limit of 50000 mUSD"
    );
    assert!(!o.reason.contains(" | "));
}

#[test]
fn saturated_exposure_does_not_overflow() {
    let mut r = request(PoolId::Gold, "US");
    r.exposure_musd = u64::MAX;
    r.requested_amount = 1;
    let o = evaluate(&r);
    assert!(!o.allowed);
    assert_eq!(o.max_allocation, 0);
    assert_eq!(
        o.reason,
        format!(
            "Projected exposure {} mUSD exceeds Gold pool cap of 150000 mUSD",
            u64::MAX
        )
    );
}

#[test]
fn every_rule_fails_in_order() {
    let r = ComplianceRequest {
        user: "0x3".to_string(),
        pool_id: PoolId::MoneyMarket,
        residency: "jp".to_string(),
        kyc_level: 0,
        aml_passed: false,
        accredited_investor: false,
        exposure_musd: 45_000,
        requested_amount: 30_000,
        risk_score: 10,
    };
    let o = evaluate(&r);
    assert!(!o.allowed);
    assert_eq!(
        o.reason,
        "AML screening failed | Money Market pool is not open to residency JP | \
         Money Market pool requires KYC level 3 or higher (provided 0) | \
         Risk score 10 exceeds Money Market pool limit 3 | \
         Money Market pool is limited to accredited investors | \
         Requested amount 30000 mUSD exceeds Money Market single-trade limit of 25000 mUSD | \
         Projected exposure 75000 mUSD exceeds Money Market pool cap of 50000 mUSD"
    );
    assert_eq!(o.max_allocation, 5_000);
}

#[test]
fn missing_residency() {
    let o = evaluate(&request(PoolId::Gold, ""));
    assert!(!o.allowed);
    assert_eq!(o.reason, "Residency not provided");
}

#[test]
fn allowed_iff_no_failure_reason() {
    for (pool, res) in [
        (PoolId::Gold, "US"),
        (PoolId::Gold, "RU"),
        (PoolId::MoneyMarket, "DE"),
        (PoolId::RealEstate, "KP"),
        (PoolId::RealEstate, "BR"),
    ] {
        let o = evaluate(&request(pool, res));
        assert_eq!(o.allowed, o.reason.contains("approval"));
    }
}

#[test]
fn headroom_regardless_of_verdict() {
    let mut r = request(PoolId::MoneyMarket, "KP");
    r.exposure_musd = 70_000;
    let o = evaluate(&r);
    assert!(!o.allowed);
    assert_eq!(o.max_allocation, 0);
    r.exposure_musd = 10_000;
    let o = evaluate(&r);
    assert_eq!(o.max_allocation, 40_000);
}

#[test]
fn evaluation_is_idempotent() {
    let r = request(PoolId::RealEstate, "fr");
    let a = evaluate(&r);
    let b = evaluate(&r);
    assert_eq!(a.allowed, b.allowed);
    assert_eq!(a.reason, b.reason);
    assert_eq!(a.max_allocation, b.max_allocation);
    assert_eq!(a.user, b.user);
}

#[test]
fn contains_ignores_ascii_case() {
    assert!(contains(&["US", "CA"], "ca"));
    assert!(!contains(&["US", "CA"], "DE"));
    assert!(!contains(&[], "US"));
}

#[test]
fn each_pool_has_its_rules() {
    let gold = policy_for(PoolId::Gold);
    assert_eq!(gold.name, "Gold");
    assert_eq!(gold.allowed_residencies, vec!["US", "CA", "UK", "DE", "FR", "SG", "AE"]);
    assert!(gold.banned_residencies.is_empty());
    assert_eq!((gold.max_single_trade, gold.max_total_exposure), (50_000, 150_000));
    let mm = policy_for(PoolId::MoneyMarket);
    assert_eq!((mm.min_kyc_level, mm.max_risk_score, mm.require_accreditation), (3, 3, true));
    let re = policy_for(PoolId::RealEstate);
    assert_eq!(re.banned_residencies, vec!["RU", "KP", "IR", "SY"]);
    assert_eq!(re.pool_id, PoolId::RealEstate);
}
