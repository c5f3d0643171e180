use vstd::prelude::*;

verus! {

/// A canonical on-chain address, already validated and canonicalized by the
/// host before it reaches this core.
pub struct Addr(pub Vec<u8>);

impl View for Addr {
    type V = Seq<u8>;

    open spec fn view(&self) -> Seq<u8> {
        self.0@
    }
}

/// Byte-for-byte equality of two canonical addresses. This is the only
/// operation the authorization guard needs.
pub fn addr_eq(a: &Addr, b: &Addr) -> (r: bool)
    ensures
        r == (a@ == b@),
{
    if a.0.len() != b.0.len() {
        return false;
    }
    let mut i: usize = 0;
    while i < a.0.len()
        invariant
            i <= a.0.len(),
            a.0.len() == b.0.len(),
            forall|j: int| 0 <= j < i ==> a.0@[j] == b.0@[j],
        decreases a.0.len() - i,
    {
        if a.0[i] != b.0[i] {
            return false;
        }
        i += 1;
    }
    proof {
        assert(a.0@ =~= b.0@);
    }
    true
}

fn clone_bytes(v: &Vec<u8>) -> (r: Vec<u8>)
    ensures
        r@ == v@,
{
    let mut r: Vec<u8> = Vec::new();
    let mut i: usize = 0;
    while i < v.len()
        invariant
            i <= v.len(),
            r@ == v@.take(i as int),
        decreases v.len() - i,
    {
        r.push(v[i]);
        i += 1;
    }
    proof {
        assert(r@ =~= v@);
    }
    r
}

impl Clone for Addr {
    fn clone(&self) -> (res: Self)
        ensures
            res@ == self@,
    {
        Addr(clone_bytes(&self.0))
    }
}

/// The single persisted record of a deployment: the tracked metric, the two
/// token counters it drives, the three role addresses, and the lock flag.
pub struct State {
    pub region: String,
    pub beneficiary: Addr,
    pub owner: Addr,
    pub oracle: Addr,
    pub ecostate: i64,
    pub total_tokens: i64,
    pub released_tokens: i64,
    pub is_locked: bool,
}

/// The mathematical image of a [`State`]: sequences for the text fields and
/// unbounded integers for the counters.
#[verifier::ext_equal]
pub ghost struct StateView {
    pub region: Seq<char>,
    pub beneficiary: Seq<u8>,
    pub owner: Seq<u8>,
    pub oracle: Seq<u8>,
    pub ecostate: int,
    pub total_tokens: int,
    pub released_tokens: int,
    pub is_locked: bool,
}

impl View for State {
    type V = StateView;

    open spec fn view(&self) -> StateView {
        StateView {
            region: self.region@,
            beneficiary: self.beneficiary@,
            owner: self.owner@,
            oracle: self.oracle@,
            ecostate: self.ecostate as int,
            total_tokens: self.total_tokens as int,
            released_tokens: self.released_tokens as int,
            is_locked: self.is_locked,
        }
    }
}

/// The record's invariant: the metric sits in `[0, 10000)`, both counters are
/// nonnegative, and their sum fits the counter type (it is constant over the
/// record's lifetime, so this bounds every intermediate sum as well).
pub open spec fn well_formed(s: StateView) -> bool {
    &&& 0 <= s.ecostate < 10000
    &&& s.total_tokens >= 0
    &&& s.released_tokens >= 0
    &&& s.total_tokens + s.released_tokens <= i64::MAX
}

impl Clone for State {
    fn clone(&self) -> (res: Self)
        ensures
            res@ == self@,
    {
        State {
            region: self.region.clone(),
            beneficiary: self.beneficiary.clone(),
            owner: self.owner.clone(),
            oracle: self.oracle.clone(),
            ecostate: self.ecostate,
            total_tokens: self.total_tokens,
            released_tokens: self.released_tokens,
            is_locked: self.is_locked,
        }
    }
}

} // verus!
