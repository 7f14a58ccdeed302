//! The administrative gate in front of the bulk clear.

use vstd::prelude::*;
use vstd::string::StrSliceExecFns;
use crate::store::{EntryModel, KVStore};

verus! {

/// The query a clear request carries: the supplied secret.
pub struct ClearCacheQuery {
    pub key: String,
}

/// Compares a supplied secret with the configured one, character by
/// character without short-circuiting on the first mismatch, and
/// authorizes exactly when they are equal.
pub fn authorize(supplied: &str, configured: &str) -> (r: bool)
    ensures
        r == (supplied@ == configured@),
{
    let n_supplied = supplied.unicode_len();
    let n_configured = configured.unicode_len();
    if n_supplied != n_configured {
        return false;
    }
    let mut differs = false;
    let mut i: usize = 0;
    while i < n_supplied
        invariant
            n_supplied == supplied@.len(),
            n_supplied == configured@.len(),
            i <= n_supplied,
            differs == !(forall|j: int| 0 <= j < i ==> supplied@[j] == configured@[j]),
        decreases n_supplied - i,
    {
        let left = supplied.get_char(i);
        let right = configured.get_char(i);
        if left != right {
            differs = true;
        }
        i = i + 1;
        proof {
            if !differs {
                assert(forall|j: int| 0 <= j < i ==> supplied@[j] == configured@[j]);
            }
        }
    }
    proof {
        if !differs {
            assert(supplied@ =~= configured@);
        }
    }
    !differs
}

/// Clears the whole cache when and only when the supplied secret matches
/// the configured one; a mismatch leaves the store untouched.
pub fn clear_cache(store: &mut KVStore, query: &ClearCacheQuery, configured_secret: &str) -> (r:
    bool)
    requires
        old(store).wf(),
    ensures
        final(store).wf(),
        r == (query.key@ == configured_secret@),
        r ==> final(store)@ == Map::<Seq<char>, EntryModel>::empty(),
        !r ==> final(store)@ == old(store)@,
{
    if authorize(query.key.as_str(), configured_secret) {
        let _ = store.clear();
        true
    } else {
        false
    }
}

} // verus!
