//! The nonce store: at most one live challenge per wallet address.
use vstd::prelude::*;
use vstd::hash_map::StringHashMap;

verus! {

/// Mapping from lowercase wallet address to its one-time challenge.
///
/// The map is private: callers reach it only through `issue` and `consume`,
/// so a challenge can be read only by removing it.
pub struct NonceStore {
    entries: StringHashMap<String>,
}

/// The store after `issue(address, nonce)`.
pub open spec fn spec_issue(m: Map<Seq<char>, Seq<char>>, address: Seq<char>, nonce: Seq<char>) -> Map<
    Seq<char>,
    Seq<char>,
> {
    m.insert(address, nonce)
}

/// What `consume(address)` returns, and the store after it.
pub open spec fn spec_consume(m: Map<Seq<char>, Seq<char>>, address: Seq<char>) -> (Option<Seq<char>>, Map<
    Seq<char>,
    Seq<char>,
>) {
    if m.contains_key(address) {
        (Some(m[address]), m.remove(address))
    } else {
        (None, m)
    }
}

impl View for NonceStore {
    type V = Map<Seq<char>, Seq<char>>;

    /// The store as a map from address to nonce.
    closed spec fn view(&self) -> Map<Seq<char>, Seq<char>> {
        self.entries@.map_values(|n: String| n@)
    }
}

impl NonceStore {
    pub fn new() -> (r: Self)
        ensures
            r@ == Map::<Seq<char>, Seq<char>>::empty(),
    {
        let r = NonceStore { entries: StringHashMap::new() };
        assert(r@ =~= Map::<Seq<char>, Seq<char>>::empty());
        r
    }

    /// Records `nonce` as the live challenge of `address`, replacing any
    /// earlier one.
    pub fn issue(&mut self, address: String, nonce: String)
        ensures
            final(self)@ == spec_issue(old(self)@, address@, nonce@),
    {
        self.entries.insert(address, nonce);
        assert(self@ =~= spec_issue(old(self)@, address@, nonce@));
    }

    /// Removes and returns the live challenge of `address`; `None` when the
    /// address has none.
    pub fn consume(&mut self, address: &str) -> (r: Option<String>)
        ensures
            (match r {
                Some(n) => Some(n@),
                None => None,
            }, final(self)@) == spec_consume(old(self)@, address@),
    {
        let found = match self.entries.get(address) {
            Some(n) => Some(n.clone()),
            None => None,
        };
        if found.is_some() {
            self.entries.remove(address);
            assert(self@ =~= old(self)@.remove(address@));
        }
        found
    }

    /// Whether `address` has a live challenge.
    pub fn contains(&self, address: &str) -> (r: bool)
        ensures
            r == self@.contains_key(address@),
    {
        self.entries.contains_key(address)
    }
}

/// A challenge is single-use: once issued for an address and consumed, a
/// second consume for that address finds nothing.
pub proof fn lemma_nonce_single_use(m: Map<Seq<char>, Seq<char>>, address: Seq<char>, nonce: Seq<char>)
    ensures
        spec_consume(spec_issue(m, address, nonce), address).0 == Some(nonce),
        spec_consume(spec_consume(spec_issue(m, address, nonce), address).1, address).0 is None,
{
}

} // verus!
