//! The recent-blockhash cache: one periodically refreshed freshness token,
//! shared by every submission, so no submission waits on a network round
//! trip.

use vstd::prelude::*;

verus! {

/// The single cached freshness token of a running dispatcher. The first
/// token is fetched synchronously before the cache exists, so a reader
/// never waits for a background task; afterwards a background loop hands
/// each refresh outcome to [`BlockhashCache::refresh`].
pub struct BlockhashCache {
    pub blockhash: [u8; 32],
}

impl BlockhashCache {
    /// Builds the cache around the synchronously fetched first token.
    pub fn new(initial: [u8; 32]) -> (cache: BlockhashCache)
        ensures
            cache.blockhash@ == initial@,
    {
        BlockhashCache { blockhash: initial }
    }

    /// Takes one refresh outcome: a fresh token replaces the cached one
    /// in a single assignment, and a failed fetch keeps the stale token —
    /// an unreachable ledger endpoint never stalls the pipeline.
    pub fn refresh(&mut self, fetched: Option<[u8; 32]>)
        ensures
            fetched matches Some(token) ==> final(self).blockhash@ == token@,
            fetched is None ==> final(self).blockhash@ == old(self).blockhash@,
    {
        match fetched {
            Some(token) => {
                self.blockhash = token;
            },
            None => {},
        }
    }

    /// Returns the most recently cached token. This is a plain read of the
    /// stored value: it performs no fetch, cannot fail, and is what every
    /// submission attaches while refreshes come and go in the background.
    pub fn get_blockhash(&self) -> (token: [u8; 32])
        ensures
            token@ == self.blockhash@,
    {
        self.blockhash
    }
}

} // verus!
