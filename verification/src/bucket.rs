//! Per-route rate-limit bucket state, re-synchronized from server-provided
//! response values rather than guessed locally.

use vstd::prelude::*;

verus! {

/// Server-tracked rate-limit quota state for one route. `bucket_id` is the
/// server's bucket identity: a route may be remapped to a different
/// underlying bucket over time, so the identity is tracked, not assumed
/// stable.
pub struct BucketState {
    /// Calls still permitted before the reset deadline.
    pub remaining: u64,
    /// The quota granted per window, as last reported by the server.
    pub limit: u64,
    /// The deadline after which the quota refreshes.
    pub reset_at: u64,
    /// The server's bucket identity, once one has been reported.
    pub bucket_id: Option<String>,
}

impl BucketState {
    /// A bucket admits a call when it has calls remaining or its reset
    /// deadline has passed.
    pub open spec fn available_spec(self, now: u64) -> bool {
        self.remaining > 0 || self.reset_at <= now
    }

    /// The state assumed for a route never seen before: one optimistic call
    /// is admitted, and the first response re-synchronizes the truth.
    pub fn initial() -> (r: BucketState)
        ensures
            r.remaining == 1,
            r.limit == 1,
            r.reset_at == 0,
            r.bucket_id is None,
    {
        BucketState { remaining: 1, limit: 1, reset_at: 0, bucket_id: None }
    }

    pub fn available(&self, now: u64) -> (r: bool)
        ensures
            r == self.available_spec(now),
    {
        self.remaining > 0 || self.reset_at <= now
    }

    /// Record that a call was issued: `remaining` only decreases between
    /// resets and is never negative.
    pub fn on_issue(&mut self)
        ensures
            final(self).remaining == if old(self).remaining > 0 {
                (old(self).remaining - 1) as u64
            } else {
                0u64
            },
            final(self).limit == old(self).limit,
            final(self).reset_at == old(self).reset_at,
            final(self).bucket_id == old(self).bucket_id,
    {
        if self.remaining > 0 {
            self.remaining = self.remaining - 1;
        }
    }

    /// Re-synchronize from server-provided response values.
    pub fn resync(&mut self, remaining: u64, limit: u64, reset_at: u64, bucket_id: Option<String>)
        ensures
            final(self).remaining == remaining,
            final(self).limit == limit,
            final(self).reset_at == reset_at,
            final(self).bucket_id == bucket_id,
    {
        self.remaining = remaining;
        self.limit = limit;
        self.reset_at = reset_at;
        self.bucket_id = bucket_id;
    }
}

} // verus!
