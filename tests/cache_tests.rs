use compliance_core::cache::{cache_response, get_cache_key, get_cached_response, ResponseCache};
use compliance_core::policy::evaluate;
use compliance_core::types::{ComplianceRequest, PoolId, UserResponse};

fn request() -> ComplianceRequest {
    ComplianceRequest {
        user: "0xabc".to_string(),
        pool_id: PoolId::MoneyMarket,
        residency: "us".to_string(),
        kyc_level: 3,
        aml_passed: true,
        accredited_investor: false,
        exposure_musd: 1_500,
        requested_amount: 250,
        risk_score: 2,
    }
}

#[test]
fn cache_key_lists_every_field() {
    assert_eq!(
        get_cache_key(&request()),
        "0xabc:money_market:us:3:true:false:1500:250:2"
    );
}

#[test]
fn cache_round_trip() {
    let mut cache = ResponseCache::new();
    let r = request();
    assert!(get_cached_response(&cache, &r).is_none());
    let outcome = evaluate(&r);
    let message = outcome.reason.clone();
    let stored = UserResponse { outcome, proof: None, message };
    cache_response(&mut cache, &r, &stored);
    let back = get_cached_response(&cache, &r).expect("stored response");
    assert_eq!(back.message, stored.message);
    assert_eq!(back.outcome.reason, stored.outcome.reason);
    assert_eq!(back.outcome.allowed, stored.outcome.allowed);
    assert!(back.proof.is_none());

    let mut other = request();
    other.risk_score = 3;
    assert_ne!(get_cache_key(&other), get_cache_key(&r));
    assert!(get_cached_response(&cache, &other).is_none());
}

#[test]
fn cache_overwrites_same_key() {
    let mut cache = ResponseCache::new();
    let r = request();
    let first = UserResponse { outcome: evaluate(&r), proof: None, message: "first".to_string() };
    let second = UserResponse { outcome: evaluate(&r), proof: None, message: "second".to_string() };
    cache_response(&mut cache, &r, &first);
    cache_response(&mut cache, &r, &second);
    assert_eq!(get_cached_response(&cache, &r).unwrap().message, "second");
}
