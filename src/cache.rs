//! Memoisation of responses, keyed by a fingerprint of the request.
use vstd::prelude::*;
use crate::text::{append_decimal, decimal, join_with, lemma_decimal_injective, lemma_join_push, lemma_join_separates};
use crate::types::{ComplianceRequest, PoolId, RequestView, ResponseView, UserResponse};

verus! {

/// The separator between the fields of a fingerprint.
pub open spec fn key_separator() -> Seq<char> {
    ":"@
}

pub open spec fn pool_code(pool_id: PoolId) -> Seq<char> {
    match pool_id {
        PoolId::Gold => "gold"@,
        PoolId::MoneyMarket => "money_market"@,
        PoolId::RealEstate => "real_estate"@,
    }
}

pub open spec fn bool_text(b: bool) -> Seq<char> {
    if b { "true"@ } else { "false"@ }
}

/// The fields of a request as they appear in its fingerprint, in order.
pub open spec fn key_fields(r: RequestView) -> Seq<Seq<char>> {
    seq![
        r.user,
        pool_code(r.pool_id),
        r.residency,
        decimal(r.kyc_level as nat),
        bool_text(r.aml_passed),
        bool_text(r.accredited_investor),
        decimal(r.exposure_musd as nat),
        decimal(r.requested_amount as nat),
        decimal(r.risk_score as nat),
    ]
}

/// The fingerprint of a request: all of its fields, in a fixed order,
/// separated by colons.
pub open spec fn cache_key(r: RequestView) -> Seq<char> {
    join_with(key_fields(r), key_separator())
}

fn pool_code_str(pool_id: PoolId) -> (r: &'static str)
    ensures
        r@ == pool_code(pool_id),
{
    match pool_id {
        PoolId::Gold => "gold",
        PoolId::MoneyMarket => "money_market",
        PoolId::RealEstate => "real_estate",
    }
}

fn bool_str(b: bool) -> (r: &'static str)
    ensures
        r@ == bool_text(b),
{
    if b { "true" } else { "false" }
}

/// The fingerprint of `request`.
pub fn get_cache_key(request: &ComplianceRequest) -> (key: String)
    ensures
        key@ == cache_key(request@),
{
    let ghost fs = key_fields(request@);
    let mut key = String::from_str(request.user.as_str());
    proof {
        lemma_join_push(Seq::empty(), key_separator(), fs[0]);
        assert(fs.take(1) =~= Seq::<Seq<char>>::empty().push(fs[0]));
    }
    key.append(":");
    key.append(pool_code_str(request.pool_id));
    proof {
        lemma_join_push(fs.take(1), key_separator(), fs[1]);
        assert(fs.take(2) =~= fs.take(1).push(fs[1]));
    }
    key.append(":");
    key.append(request.residency.as_str());
    proof {
        lemma_join_push(fs.take(2), key_separator(), fs[2]);
        assert(fs.take(3) =~= fs.take(2).push(fs[2]));
    }
    key.append(":");
    append_decimal(&mut key, request.kyc_level as u64);
    proof {
        lemma_join_push(fs.take(3), key_separator(), fs[3]);
        assert(fs.take(4) =~= fs.take(3).push(fs[3]));
    }
    key.append(":");
    key.append(bool_str(request.aml_passed));
    proof {
        lemma_join_push(fs.take(4), key_separator(), fs[4]);
        assert(fs.take(5) =~= fs.take(4).push(fs[4]));
    }
    key.append(":");
    key.append(bool_str(request.accredited_investor));
    proof {
        lemma_join_push(fs.take(5), key_separator(), fs[5]);
        assert(fs.take(6) =~= fs.take(5).push(fs[5]));
    }
    key.append(":");
    append_decimal(&mut key, request.exposure_musd);
    proof {
        lemma_join_push(fs.take(6), key_separator(), fs[6]);
        assert(fs.take(7) =~= fs.take(6).push(fs[6]));
    }
    key.append(":");
    append_decimal(&mut key, request.requested_amount);
    proof {
        lemma_join_push(fs.take(7), key_separator(), fs[7]);
        assert(fs.take(8) =~= fs.take(7).push(fs[7]));
    }
    key.append(":");
    append_decimal(&mut key, request.risk_score as u64);
    proof {
        lemma_join_push(fs.take(8), key_separator(), fs[8]);
        assert(fs.take(9) =~= fs.take(8).push(fs[8]));
        assert(fs.take(9) =~= fs);
    }
    key
}


/// How many fields two requests differ in.
pub open spec fn field_differences(a: RequestView, b: RequestView) -> int {
    (if a.user != b.user { 1int } else { 0 })
        + (if a.pool_id != b.pool_id { 1int } else { 0 })
        + (if a.residency != b.residency { 1int } else { 0 })
        + (if a.kyc_level != b.kyc_level { 1int } else { 0 })
        + (if a.aml_passed != b.aml_passed { 1int } else { 0 })
        + (if a.accredited_investor != b.accredited_investor { 1int } else { 0 })
        + (if a.exposure_musd != b.exposure_musd { 1int } else { 0 })
        + (if a.requested_amount != b.requested_amount { 1int } else { 0 })
        + (if a.risk_score != b.risk_score { 1int } else { 0 })
}

/// Two requests that differ in exactly one field have different
/// fingerprints.
pub proof fn lemma_key_separates(a: RequestView, b: RequestView)
    requires
        field_differences(a, b) == 1,
    ensures
        cache_key(a) != cache_key(b),
{
    reveal_strlit("gold");
    reveal_strlit("money_market");
    reveal_strlit("real_estate");
    reveal_strlit("true");
    reveal_strlit("false");
    let fa = key_fields(a);
    let fb = key_fields(b);
    assert forall|x: nat, y: nat| decimal(x) == decimal(y) implies x == y by {
        lemma_decimal_injective(x, y);
    }
    let k: int = if a.user != b.user {
        0
    } else if a.pool_id != b.pool_id {
        1
    } else if a.residency != b.residency {
        2
    } else if a.kyc_level != b.kyc_level {
        3
    } else if a.aml_passed != b.aml_passed {
        4
    } else if a.accredited_investor != b.accredited_investor {
        5
    } else if a.exposure_musd != b.exposure_musd {
        6
    } else if a.requested_amount != b.requested_amount {
        7
    } else {
        8
    };
    assert(pool_code(a.pool_id) != pool_code(b.pool_id) <== a.pool_id != b.pool_id) by {
        if a.pool_id != b.pool_id {
            assert(pool_code(a.pool_id).len() != pool_code(b.pool_id).len()
                || pool_code(a.pool_id)[0] != pool_code(b.pool_id)[0]);
        }
    }
    assert(bool_text(a.aml_passed).len() != bool_text(b.aml_passed).len() <== a.aml_passed != b.aml_passed);
    assert(bool_text(a.accredited_investor).len() != bool_text(b.accredited_investor).len()
        <== a.accredited_investor != b.accredited_investor);
    assert(fa[k] != fb[k]);
    lemma_join_separates(fa, fb, key_separator(), k);
}

/// Responses stored under fingerprints. A fingerprint stored again replaces
/// the earlier response; nothing is evicted.
pub struct ResponseCache {
    entries: Vec<(String, UserResponse)>,
    contents: Ghost<Map<Seq<char>, ResponseView>>,
}

impl View for ResponseCache {
    type V = Map<Seq<char>, ResponseView>;

    closed spec fn view(&self) -> Map<Seq<char>, ResponseView> {
        self.contents@
    }
}

impl ResponseCache {
    /// The entries agree with the map that the cache stands for.
    pub closed spec fn wf(&self) -> bool {
        &&& forall|i: int|
            0 <= i < self.entries@.len() ==> {
                &&& self.contents@.contains_key(#[trigger] self.entries@[i].0@)
                &&& self.contents@[self.entries@[i].0@] == self.entries@[i].1@
            }
        &&& forall|k: Seq<char>|
            #[trigger] self.contents@.contains_key(k) ==> exists|i: int|
                0 <= i < self.entries@.len() && #[trigger] self.entries@[i].0@ == k
        &&& forall|i: int, j: int|
            0 <= i < self.entries@.len() && 0 <= j < self.entries@.len() && i != j
                ==> #[trigger] self.entries@[i].0@ != #[trigger] self.entries@[j].0@
    }

    /// An empty cache.
    pub fn new() -> (c: ResponseCache)
        ensures
            c.wf(),
            c@ == Map::<Seq<char>, ResponseView>::empty(),
    {
        ResponseCache { entries: Vec::new(), contents: Ghost(Map::empty()) }
    }

    /// The position of `key` among the entries, if it is there.
    fn find(&self, key: &String) -> (r: Option<usize>)
        requires
            self.wf(),
        ensures
            match r {
                Some(i) => i < self.entries@.len() && self.entries@[i as int].0@ == key@,
                None => !self@.contains_key(key@),
            },
    {
        let mut i: usize = 0;
        while i < self.entries.len()
            invariant
                self.wf(),
                0 <= i <= self.entries@.len(),
                forall|j: int| 0 <= j < i ==> #[trigger] self.entries@[j].0@ != key@,
            decreases self.entries@.len() - i,
        {
            if self.entries[i].0 == *key {
                return Some(i);
            }
            i += 1;
        }
        None
    }

    /// A copy of the response stored under `key`, if any.
    pub fn get(&self, key: &String) -> (r: Option<UserResponse>)
        requires
            self.wf(),
        ensures
            match r {
                Some(v) => self@.contains_key(key@) && v@ == self@[key@],
                None => !self@.contains_key(key@),
            },
    {
        match self.find(key) {
            Some(i) => Some(self.entries[i].1.duplicate()),
            None => None,
        }
    }

    /// Stores `response` under `key`, replacing what was there.
    pub fn insert(&mut self, key: String, response: UserResponse)
        requires
            old(self).wf(),
        ensures
            final(self).wf(),
            final(self)@ == old(self)@.insert(key@, response@),
    {
        let ghost k = key@;
        let ghost v = response@;
        let ghost mut at: int = 0;
        let ghost olds = self.entries@;
        match self.find(&key) {
            Some(i) => {
                self.entries.set(i, (key, response));
                proof { at = i as int; }
            },
            None => {
                proof { at = self.entries@.len() as int; }
                self.entries.push((key, response));
            },
        }
        self.contents = Ghost(self.contents@.insert(k, v));
        assert forall|j: int| 0 <= j < self.entries@.len() implies {
            &&& self.contents@.contains_key(#[trigger] self.entries@[j].0@)
            &&& self.contents@[self.entries@[j].0@] == self.entries@[j].1@
        } by {
            if j != at {
                assert(olds[j] == self.entries@[j]);
            }
        }
        assert forall|a: int, b: int|
            0 <= a < self.entries@.len() && 0 <= b < self.entries@.len() && a != b
                implies #[trigger] self.entries@[a].0@ != #[trigger] self.entries@[b].0@ by {
            if a != at && b != at {
                assert(olds[a] == self.entries@[a] && olds[b] == self.entries@[b]);
            } else if a == at {
                assert(olds[b] == self.entries@[b]);
                assert(olds[b].0@ != k) by {
                    if at < olds.len() {
                        assert(olds[at].0@ == k);
                    } else {
                        assert(old(self).contents@.contains_key(olds[b].0@));
                    }
                }
            } else {
                assert(olds[a] == self.entries@[a]);
                assert(olds[a].0@ != k) by {
                    if at < olds.len() {
                        assert(olds[at].0@ == k);
                    } else {
                        assert(old(self).contents@.contains_key(olds[a].0@));
                    }
                }
            }
        }
        assert forall|kk: Seq<char>| #[trigger] self.contents@.contains_key(kk) implies exists|j: int|
            0 <= j < self.entries@.len() && #[trigger] self.entries@[j].0@ == kk by {
            if kk != k {
                let j = choose|j: int| 0 <= j < old(self).entries@.len() && #[trigger] old(self).entries@[j].0@ == kk;
                assert(self.entries@[j].0@ == kk);
            } else {
                assert(self.entries@[at].0@ == kk);
            }
        }
    }
}

/// The response stored for `request`, if any.
pub fn get_cached_response(cache: &ResponseCache, request: &ComplianceRequest) -> (r: Option<UserResponse>)
    requires
        cache.wf(),
    ensures
        match r {
            Some(v) => cache@.contains_key(cache_key(request@)) && v@ == cache@[cache_key(request@)],
            None => !cache@.contains_key(cache_key(request@)),
        },
{
    let key = get_cache_key(request);
    cache.get(&key)
}

/// Stores a copy of `response` for `request`.
pub fn cache_response(cache: &mut ResponseCache, request: &ComplianceRequest, response: &UserResponse)
    requires
        old(cache).wf(),
    ensures
        final(cache).wf(),
        final(cache)@ == old(cache)@.insert(cache_key(request@), response@),
{
    let key = get_cache_key(request);
    cache.insert(key, response.duplicate());
}

/// Storing a response and then looking up the same request gives that
/// response back; a request that differs in exactly one field is found
/// exactly when it was there before.
pub proof fn lemma_cache_round_trip(
    m: Map<Seq<char>, ResponseView>,
    a: RequestView,
    b: RequestView,
    v: ResponseView,
)
    requires
        field_differences(a, b) == 1,
    ensures
        m.insert(cache_key(a), v).contains_key(cache_key(a)),
        m.insert(cache_key(a), v)[cache_key(a)] == v,
        m.insert(cache_key(a), v).contains_key(cache_key(b)) == m.contains_key(cache_key(b)),
{
    lemma_key_separates(a, b);
}

} // verus!
