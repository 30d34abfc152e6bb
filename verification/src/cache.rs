//! The cache metadata record and the freshness policy that bounds network
//! updates to at most one per day per URL.

use vstd::prelude::*;

verus! {

/// Seconds in one day, the freshness window of a cached clone.
pub const SECONDS_PER_DAY: i64 = 86400;

/// The metadata record stored beside each cached clone, with the moment of
/// the last network update as a Unix timestamp in whole seconds.
#[derive(Debug, Clone, Copy, PartialEq, Eq, Structural)]
pub struct CacheMeta {
    pub last_update: i64,
}

/// True when a cache entry last updated at `last_update` must be refreshed
/// at time `now` (both Unix timestamps in seconds): more than one day has
/// passed since the update.
pub open spec fn spec_is_stale(last_update: int, now: int) -> bool {
    last_update + 86400 < now
}

impl CacheMeta {
    /// Decides whether the cached clone needs a network update at time
    /// `now`: it does when the last update lies more than a day in the past.
    pub fn is_stale(&self, now: i64) -> (r: bool)
        ensures
            r == spec_is_stale(self.last_update as int, now as int),
    {
        if self.last_update <= i64::MAX - SECONDS_PER_DAY {
            self.last_update + SECONDS_PER_DAY < now
        } else {
            false
        }
    }
}

} // verus!
