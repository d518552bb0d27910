use vstd::prelude::*;

use crate::queue::HandleId;

verus! {

/// The adapter's model of the keyed store of decoded audio assets.
///
/// The host's asset storage maps an asset reference to its decoded,
/// ready-to-play form, or to absence while it is still loading. The drain
/// pass reads exactly one thing from that store: whether a reference
/// resolves. This type records that, as the collection of references that
/// have finished decoding; the decoded sample data itself stays with the
/// host, which hands it to the backend when the adapter asks for playback.
pub struct AssetStore {
    pub loaded: Vec<HandleId>,
}

impl AssetStore {
    /// The set of asset references that resolve to a decoded asset.
    pub open spec fn loaded_set(&self) -> Set<HandleId> {
        self.loaded@.to_set()
    }

    /// A store in which no asset has finished decoding yet.
    pub fn new() -> (store: Self)
        ensures
            store.loaded_set() == Set::<HandleId>::empty(),
    {
        let store = AssetStore { loaded: Vec::new() };
        proof {
            assert(store.loaded_set() =~= Set::<HandleId>::empty());
        }
        store
    }

    /// Record that `handle` now resolves to a decoded asset.
    pub fn mark_loaded(&mut self, handle: HandleId)
        ensures
            final(self).loaded_set() == old(self).loaded_set().insert(handle),
    {
        self.loaded.push(handle);
        proof {
            old(self).loaded@.lemma_push_to_set_commute(handle);
        }
    }

    /// Whether `handle` resolves to a decoded asset ("present"), as opposed
    /// to still loading ("absent").
    pub fn contains(&self, handle: HandleId) -> (present: bool)
        ensures
            present == self.loaded_set().contains(handle),
    {
        let n = self.loaded.len();
        let mut i: usize = 0;
        while i < n
            invariant
                n == self.loaded@.len(),
                i <= n,
                forall|j: int| 0 <= j < i ==> self.loaded@[j] != handle,
            decreases n - i,
        {
            if self.loaded[i] == handle {
                proof {
                    assert(self.loaded@[i as int] == handle);
                }
                return true;
            }
            i += 1;
        }
        false
    }
}

} // verus!
