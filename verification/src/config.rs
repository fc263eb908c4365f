//! Named-key configuration: resolves secrets (and other settings) by name.
//!
//! The process boundary loads the actual environment and hands the pairs in;
//! inside the library a missing key is always visible as `None` — there is no
//! silent fallback to a default secret.

use vstd::prelude::*;

use crate::kv::{assoc_find, assoc_get, assoc_set, assoc_unique};

verus! {

/// A table of named configuration values (for instance, signing secrets).
pub struct ConfigService {
    vars: Vec<(String, String)>,
}

impl ConfigService {
    /// What the service answers for a key.
    pub closed spec fn spec_get(self, key: Seq<char>) -> Option<String> {
        assoc_find(self.vars@, key)
    }

    pub closed spec fn wf(self) -> bool {
        assoc_unique(self.vars@)
    }

    /// An empty table: every lookup misses until a value is set.
    pub fn new() -> (r: ConfigService)
        ensures
            r.wf(),
            forall|k: Seq<char>| r.spec_get(k) is None,
    {
        let r = ConfigService { vars: Vec::new() };
        proof {
            assert forall|k: Seq<char>| r.spec_get(k) is None by {
                crate::kv::lemma_assoc_find_absent(r.vars@, k);
            }
        }
        r
    }

    /// Bind `key` to `value`, replacing any earlier binding.
    pub fn set_env(&mut self, key: String, value: String)
        requires
            old(self).wf(),
        ensures
            final(self).wf(),
            final(self).spec_get(key@) == Some(value),
            forall|k2: Seq<char>| k2 != key@ ==> final(self).spec_get(k2) == old(self).spec_get(
                k2,
            ),
    {
        assoc_set(&mut self.vars, key, value);
    }

    /// Resolve a named value; `None` when the key is absent.
    pub fn get_env(&self, key: &String) -> (r: Option<&String>)
        ensures
            match r {
                Some(v) => self.spec_get(key@) == Some(*v),
                None => self.spec_get(key@) is None,
            },
    {
        assoc_get(&self.vars, key)
    }
}

} // verus!
