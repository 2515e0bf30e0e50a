//! The in-process state: the nonce store and the registries the role
//! resolver reads.
use vstd::prelude::*;
use vstd::hash_set::StringHashSet;
use crate::config::Config;
use crate::identity::Role;
use crate::nonce::NonceStore;

verus! {

/// In-memory data store.
pub struct Store {
    /// Live challenges, one per wallet address.
    pub nonces: NonceStore,
    /// Wallet addresses that hold an approval record.
    pub validators: StringHashSet,
    /// Wallet addresses on the admin allow-list.
    pub admins: StringHashSet,
}

/// The role of a wallet address: admin if allow-listed, else validator if it
/// holds an approval record, else certificator.
pub open spec fn spec_resolve(admins: Set<Seq<char>>, validators: Set<Seq<char>>, address: Seq<char>) -> Role {
    if admins.contains(address) {
        Role::Admin
    } else if validators.contains(address) {
        Role::Validator
    } else {
        Role::Certificator
    }
}

impl Store {
    /// A store with the given admin allow-list, no challenges and no
    /// approval records.
    pub fn with_admins(admins: Vec<String>) -> (r: Self)
        ensures
            r.admins@ == admins.deep_view().to_set(),
            r.validators@ == Set::<Seq<char>>::empty(),
            r.nonces@ == Map::<Seq<char>, Seq<char>>::empty(),
    {
        let mut set = StringHashSet::new();
        let mut i: usize = 0;
        while i < admins.len()
            invariant
                i <= admins@.len(),
                set@ == admins.deep_view().subrange(0, i as int).to_set(),
            decreases admins@.len() - i,
        {
            proof {
                let s = admins.deep_view();
                assert(s.subrange(0, i + 1) == s.subrange(0, i as int).push(s[i as int]));
                s.subrange(0, i as int).lemma_push_to_set_commute(s[i as int]);
            }
            set.insert(admins[i].clone());
            i = i + 1;
        }
        assert(admins.deep_view().subrange(0, i as int) == admins.deep_view());
        Store { nonces: NonceStore::new(), validators: StringHashSet::new(), admins: set }
    }

    /// Records an approval record for `address`.
    pub fn add_validator(&mut self, address: String)
        ensures
            final(self).validators@ == old(self).validators@.insert(address@),
            final(self).admins@ == old(self).admins@,
            final(self).nonces@ == old(self).nonces@,
    {
        self.validators.insert(address);
    }

    /// Drops the approval record of `address`, if any.
    pub fn remove_validator(&mut self, address: &str) -> (r: bool)
        ensures
            r == old(self).validators@.contains(address@),
            final(self).validators@ == old(self).validators@.remove(address@),
            final(self).admins@ == old(self).admins@,
            final(self).nonces@ == old(self).nonces@,
    {
        self.validators.remove(address)
    }

    /// The role of `address`.
    pub fn resolve(&self, address: &str) -> (r: Role)
        ensures
            r == spec_resolve(self.admins@, self.validators@, address@),
    {
        if self.admins.contains(address) {
            Role::Admin
        } else if self.validators.contains(address) {
            Role::Validator
        } else {
            Role::Certificator
        }
    }
}

/// Shared application state: configuration and the store.
pub struct AppState {
    pub store: Store,
    pub config: Config,
}

impl AppState {
    /// State over `config`, with its admin allow-list in the store.
    pub fn new(config: Config) -> (r: Self)
        ensures
            r.config == config,
            r.store.admins@ == config.admin_set(),
            r.store.validators@ == Set::<Seq<char>>::empty(),
            r.store.nonces@ == Map::<Seq<char>, Seq<char>>::empty(),
    {
        let store = Store::with_admins(config.admin_addresses.clone());
        AppState { store, config }
    }

    /// The role name of a wallet address: `admin`, `validator` or
    /// `certificator`.
    pub fn resolve_role(&self, address: &str) -> (r: String)
        ensures
            r@ == spec_resolve(self.store.admins@, self.store.validators@, address@).spec_name(),
    {
        String::from_str(self.store.resolve(address).as_str())
    }
}

} // verus!
