use vstd::prelude::*;

use crate::output::AudioOutput;
use crate::queue::{Audio, HandleId};
use crate::store::AssetStore;

verus! {

/// The references of `q` whose assets are decoded (`loaded`), oldest first:
/// the requests one drain pass resolves and hands to playback, in the order
/// it processes them.
pub open spec fn to_start(q: Seq<HandleId>, loaded: Set<HandleId>) -> Seq<HandleId>
    decreases q.len(),
{
    if q.len() == 0 {
        Seq::empty()
    } else {
        let rest = to_start(q.drop_last(), loaded);
        if loaded.contains(q.last()) {
            rest.push(q.last())
        } else {
            rest
        }
    }
}

/// The references of `q` whose assets are still loading, oldest first: the
/// requests one drain pass re-queues for a later pass.
pub open spec fn kept(q: Seq<HandleId>, loaded: Set<HandleId>) -> Seq<HandleId>
    decreases q.len(),
{
    if q.len() == 0 {
        Seq::empty()
    } else {
        let rest = kept(q.drop_last(), loaded);
        if loaded.contains(q.last()) {
            rest
        } else {
            rest.push(q.last())
        }
    }
}

/// How many entries of `q` reference the asset `h`.
pub open spec fn occurrences(q: Seq<HandleId>, h: HandleId) -> nat
    decreases q.len(),
{
    if q.len() == 0 {
        0
    } else {
        occurrences(q.drop_last(), h) + (if q.last() == h {
            1nat
        } else {
            0nat
        })
    }
}

impl AudioOutput {
    /// One bounded drain pass over the playback queue.
    ///
    /// Exactly the entries present when the pass starts are processed, each
    /// once, oldest first: an entry whose asset is decoded is removed from
    /// the queue and handed out for playback; an entry whose asset is still
    /// loading is re-queued at the back, to be retried on a later pass.
    ///
    /// Returns the references to play, in processing order. The caller
    /// attempts playback of each through one call of [`Self::begin_play`]
    /// driven by [`Self::next_action`]; a request is not re-queued when that
    /// call gives up, so a playback failure never surfaces to the queue.
    pub fn try_play_queued(&self, audio_sources: &AssetStore, audio: &mut Audio) -> (to_play:
        Vec<HandleId>)
        ensures
            to_play@ == to_start(old(audio).queue@, audio_sources.loaded_set()),
            final(audio).queue@ == kept(old(audio).queue@, audio_sources.loaded_set()),
            to_play@.len() + final(audio).queue@.len() == old(audio).queue@.len(),
    {
        let ghost q0 = audio.queue@;
        let ghost loaded = audio_sources.loaded_set();
        let len = audio.queue.len();
        let mut to_play: Vec<HandleId> = Vec::new();
        let mut i: usize = 0;
        while i < len
            invariant
                i <= len,
                len == q0.len(),
                loaded == audio_sources.loaded_set(),
                to_play@ == to_start(q0.subrange(0, i as int), loaded),
                audio.queue@ == q0.subrange(i as int, len as int) + kept(
                    q0.subrange(0, i as int),
                    loaded,
                ),
            decreases len - i,
        {
            proof {
                assert(audio.queue@[0] == q0[i as int]);
                assert(q0.subrange(0, i as int + 1).drop_last() =~= q0.subrange(0, i as int));
                assert(q0.subrange(0, i as int + 1).last() == q0[i as int]);
            }
            let handle = audio.queue.remove(0);
            proof {
                assert(audio.queue@ =~= q0.subrange(i as int + 1, len as int) + kept(
                    q0.subrange(0, i as int),
                    loaded,
                ));
            }
            if audio_sources.contains(handle) {
                to_play.push(handle);
            } else {
                audio.queue.push(handle);
                proof {
                    assert(audio.queue@ =~= q0.subrange(i as int + 1, len as int) + kept(
                        q0.subrange(0, i as int + 1),
                        loaded,
                    ));
                }
            }
            i = i + 1;
        }
        proof {
            assert(q0.subrange(0, len as int) =~= q0);
            assert(q0.subrange(len as int, len as int) + kept(q0, loaded) =~= kept(q0, loaded));
            lemma_drain_partition(q0, loaded);
        }
        to_play
    }
}

/// Law: a drain pass is a single bounded sweep. Every entry present at the
/// start of the pass goes either to playback or back onto the queue, and
/// nothing else does: the two outputs partition the starting queue, so at
/// most its starting length is ever processed, whatever is added meanwhile.
pub proof fn lemma_drain_partition(q: Seq<HandleId>, loaded: Set<HandleId>)
    ensures
        to_start(q, loaded).len() + kept(q, loaded).len() == q.len(),
    decreases q.len(),
{
    if q.len() > 0 {
        lemma_drain_partition(q.drop_last(), loaded);
    }
}

/// Occurrence counts unfold over `push`.
proof fn lemma_occurrences_push(s: Seq<HandleId>, x: HandleId, h: HandleId)
    ensures
        occurrences(s.push(x), h) == occurrences(s, h) + (if x == h {
            1nat
        } else {
            0nat
        }),
{
    assert(s.push(x).drop_last() =~= s);
    assert(s.push(x).last() == x);
}

/// Law: a request whose asset is not decoded at drain time is never dropped
/// by the pass: every occurrence of it stays in the queue, and none is
/// handed to playback.
pub proof fn lemma_unresolved_requests_remain(q: Seq<HandleId>, loaded: Set<HandleId>, h: HandleId)
    requires
        !loaded.contains(h),
    ensures
        occurrences(kept(q, loaded), h) == occurrences(q, h),
        occurrences(to_start(q, loaded), h) == 0,
    decreases q.len(),
{
    if q.len() > 0 {
        lemma_unresolved_requests_remain(q.drop_last(), loaded, h);
        if loaded.contains(q.last()) {
            lemma_occurrences_push(to_start(q.drop_last(), loaded), q.last(), h);
        } else {
            lemma_occurrences_push(kept(q.drop_last(), loaded), q.last(), h);
        }
    }
}

/// Law: a request whose asset is decoded at drain time is removed from the
/// queue by the pass and handed to playback exactly once per queued
/// occurrence.
pub proof fn lemma_resolved_requests_leave(q: Seq<HandleId>, loaded: Set<HandleId>, h: HandleId)
    requires
        loaded.contains(h),
    ensures
        occurrences(kept(q, loaded), h) == 0,
        occurrences(to_start(q, loaded), h) == occurrences(q, h),
    decreases q.len(),
{
    if q.len() > 0 {
        lemma_resolved_requests_leave(q.drop_last(), loaded, h);
        if loaded.contains(q.last()) {
            lemma_occurrences_push(to_start(q.drop_last(), loaded), q.last(), h);
        } else {
            lemma_occurrences_push(kept(q.drop_last(), loaded), q.last(), h);
        }
    }
}

/// A queue contains a reference exactly when its occurrence count is
/// positive.
pub proof fn lemma_occurrences_contains(q: Seq<HandleId>, h: HandleId)
    ensures
        q.contains(h) <==> occurrences(q, h) > 0,
    decreases q.len(),
{
    if q.len() > 0 {
        lemma_occurrences_contains(q.drop_last(), h);
        assert(q.drop_last() =~= q.subrange(0, q.len() - 1));
        if q.drop_last().contains(h) {
            let i = choose|i: int|
                0 <= i < q.drop_last().len() && q.drop_last()[i] == h;
            assert(q[i] == h);
        }
        if q.contains(h) && q.last() != h {
            let i = choose|i: int| 0 <= i < q.len() && q[i] == h;
            assert(q.drop_last()[i] == h);
        }
    }
}

} // verus!
