use vstd::prelude::*;

verus! {

/// An opaque reference to an audio asset awaiting playback.
///
/// The decoded audio itself lives with the host's asset storage; the adapter
/// only moves references between the queue and the playback backend.
#[derive(Clone, Copy, PartialEq, Eq, Structural, Hash, Debug)]
pub struct HandleId(pub u64);

/// The shared playback queue: references to audio assets that the host has
/// asked to play and that have not been resolved yet.
///
/// Index 0 holds the oldest entry. Producers append at the back; a drain
/// pass consumes entries from the front and re-queues still-loading entries
/// at the back, so within one pass no entry is seen twice.
pub struct Audio {
    pub queue: Vec<HandleId>,
}

impl Audio {
    /// An empty queue: no playback has been requested yet.
    pub fn new() -> (audio: Self)
        ensures
            audio.queue@ == Seq::<HandleId>::empty(),
    {
        Audio { queue: Vec::new() }
    }

    /// Request playback of one asset: append its reference at the back of
    /// the queue. The producer side of the shared queue.
    pub fn enqueue(&mut self, handle: HandleId)
        ensures
            final(self).queue@ == old(self).queue@.push(handle),
    {
        self.queue.push(handle);
    }

    /// The number of pending playback requests.
    pub fn len(&self) -> (n: usize)
        ensures
            n == self.queue@.len(),
    {
        self.queue.len()
    }
}

impl Default for Audio {
    /// Same as [`Audio::new`]: an empty queue.
    fn default() -> (audio: Self)
        ensures
            audio.queue@ == Seq::<HandleId>::empty(),
    {
        Audio::new()
    }
}

} // verus!
