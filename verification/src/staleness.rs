//! Staleness policy: when a label's cached copy warrants a remote refresh.
use vstd::prelude::*;
use crate::database::{Millis, SyncState, SyncStateView};

verus! {

/// Threshold of the passive staleness check: five minutes.
pub const DEFAULT_STALE_AFTER_MS: Millis = 300_000;

/// The policy as a mathematical statement: a label without a sync record is
/// stale; with one, it is stale exactly when the age of the record has
/// reached the threshold.
pub open spec fn spec_is_stale(last_synced_at: Option<int>, now: int, threshold: int) -> bool {
    match last_synced_at {
        None => true,
        Some(t) => now - t >= threshold,
    }
}

/// The time of the last refresh that a sync record states, if there is one.
pub open spec fn last_synced(sync_state: Option<SyncStateView>) -> Option<int> {
    match sync_state {
        None => None,
        Some(s) => Some(s.last_synced_at as int),
    }
}

/// The cache-first rule: an empty cache is never fresh, whatever its sync
/// record says; a cache that holds messages is as stale as its record.
pub open spec fn spec_should_refresh(
    cached_count: nat,
    last_synced_at: Option<int>,
    now: int,
    threshold: int,
) -> bool {
    cached_count == 0 || spec_is_stale(last_synced_at, now, threshold)
}

/// Decides whether a refresh is warranted for a label with the given sync
/// record at time `now`.
pub fn is_stale(sync_state: Option<&SyncState>, now: Millis, threshold: Millis) -> (stale: bool)
    ensures
        stale == spec_is_stale(
            match sync_state {
                None => None,
                Some(s) => Some(s.last_synced_at as int),
            },
            now as int,
            threshold as int,
        ),
{
    match sync_state {
        None => true,
        Some(s) => {
            let age: i128 = now as i128 - s.last_synced_at as i128;
            age >= threshold as i128
        },
    }
}

/// Decides whether the cache-first load of a label must be followed by a
/// refresh, given how many cached messages it found.
pub fn should_refresh(
    cached_count: usize,
    sync_state: Option<&SyncState>,
    now: Millis,
    threshold: Millis,
) -> (refresh: bool)
    ensures
        refresh == spec_should_refresh(
            cached_count as nat,
            match sync_state {
                None => None,
                Some(s) => Some(s.last_synced_at as int),
            },
            now as int,
            threshold as int,
        ),
{
    cached_count == 0 || is_stale(sync_state, now, threshold)
}

/// A label that was never synced is stale at every time and for every
/// threshold; a label synced at this very moment is fresh for every positive
/// threshold.
pub proof fn lemma_staleness_defaults(now: int, threshold: int)
    ensures
        spec_is_stale(None, now, threshold),
        threshold > 0 ==> !spec_is_stale(Some(now), now, threshold),
{
}

/// The policy never suppresses a refresh unless a record proves recency:
/// whenever it answers "fresh", a record exists and is younger than the
/// threshold.
pub proof fn lemma_fresh_needs_proof(last_synced_at: Option<int>, now: int, threshold: int)
    requires
        !spec_is_stale(last_synced_at, now, threshold),
    ensures
        last_synced_at is Some,
        now - last_synced_at->0 < threshold,
{
}

} // verus!
