//! The stored configuration: the default provider and the API keys.

use vstd::prelude::*;
use std::collections::HashMap;
use crate::provider::{type_of_code, ProviderType};

verus! {

broadcast use vstd::std_specs::hash::group_hash_axioms;

/// Config that consists of the default provider and the API keys, each key
/// on file under the code of its provider.
#[derive(Debug)]
pub struct Config {
    pub default: Option<ProviderType>,
    pub keys: HashMap<u64, String>,
}

impl Config {
    /// Every key is on file under the code of a provider.
    pub open spec fn wf(self) -> bool {
        forall|code: u64| #[trigger] self.keys@.contains_key(code) ==> type_of_code(code).is_some()
    }

    /// The key on file for `provider`.
    pub open spec fn key_of(self, provider: ProviderType) -> Option<Seq<char>> {
        if self.keys@.contains_key(provider.spec_code()) {
            Some(self.keys@[provider.spec_code()]@)
        } else {
            None
        }
    }

    /// A configuration without default provider and without keys.
    pub fn new() -> (result: Config)
        ensures
            result.wf(),
            result.default.is_none(),
            result.keys@ == Map::<u64, String>::empty(),
            forall|p: ProviderType| result.key_of(p).is_none(),
    {
        Config { default: None, keys: HashMap::new() }
    }

    /// The key on file for `provider`.
    pub fn get_key(&self, provider: ProviderType) -> (result: Option<&String>)
        ensures
            match result {
                Some(key) => self.key_of(provider) == Some(key@),
                None => self.key_of(provider).is_none(),
            },
    {
        let code: u64 = provider.code();
        self.keys.get(&code)
    }

    /// Puts `key` on file for `provider`, in place of any earlier key of
    /// that provider; the other keys and the default stay.
    pub fn set_key(&mut self, provider: ProviderType, key: &str)
        requires
            old(self).wf(),
        ensures
            final(self).wf(),
            final(self).default == old(self).default,
            final(self).keys@.dom() == old(self).keys@.dom().insert(provider.spec_code()),
            final(self).key_of(provider) == Some(key@),
            forall|other: ProviderType|
                other != provider ==> final(self).key_of(other) == old(self).key_of(other),
    {
        let code: u64 = provider.code();
        let _ = self.keys.insert(code, key.to_owned());
        proof {
            assert(final(self).keys@.dom() =~= old(self).keys@.dom().insert(provider.spec_code()));
        }
    }

    /// Makes `provider` the default; the keys stay.
    pub fn set_default(&mut self, provider: ProviderType)
        ensures
            final(self).default == Some(provider),
            final(self).keys == old(self).keys,
    {
        self.default = Some(provider);
    }
}

} // verus!
