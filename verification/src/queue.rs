//! The route queue table: one ordered FIFO of pending requests per route,
//! with the route's bucket state and in-flight flag folded into the same
//! entry, so that queue membership and route activation cannot diverge.
//! Entries keep first-seen route order, which makes draining round-robin-fair
//! across routes.

use vstd::prelude::*;

use crate::bucket::BucketState;
use crate::request::PendingRequest;
use crate::route::RequestRoute;

verus! {

/// All scheduler-owned state for one route: its pending FIFO (index 0 is the
/// head, the next request to issue), its bucket, whether its head is
/// currently in flight, and the deadline of a route-level block imposed by a
/// rate-limit rejection.
pub struct RouteEntry {
    pub route: RequestRoute,
    /// Pending requests in submission order; index 0 is the head. While
    /// `in_flight` is set, the head is the request currently being attempted.
    pub pending: Vec<PendingRequest>,
    pub bucket: BucketState,
    /// Whether the head request has been issued and its response is awaited.
    pub in_flight: bool,
    /// No call for this route may be issued before this instant.
    pub blocked_until: u64,
}

/// The table of route entries, in first-seen route order.
pub struct Queue {
    pub entries: Vec<RouteEntry>,
}

impl Queue {
    /// Well-formedness: route keys are pairwise distinct, and a route with a
    /// request in flight has that request at its head.
    pub open spec fn wf(self) -> bool {
        &&& forall|i: int, j: int|
            0 <= i < self.entries@.len() && 0 <= j < self.entries@.len()
                && #[trigger] self.entries@[i].route.key() == #[trigger] self.entries@[j].route.key()
                ==> i == j
        &&& forall|i: int|
            0 <= i < self.entries@.len() && #[trigger] self.entries@[i].in_flight
                ==> self.entries@[i].pending@.len() >= 1
    }

    /// Whether some entry carries this route key.
    pub open spec fn has_route(self, key: (Seq<char>, Seq<char>)) -> bool {
        exists|i: int|
            0 <= i < self.entries@.len() && #[trigger] self.entries@[i].route.key() == key
    }

    /// The index of the entry carrying this route key; meaningful only when
    /// `has_route(key)` holds of a well-formed table, where it is unique.
    pub open spec fn index_of(self, key: (Seq<char>, Seq<char>)) -> int {
        choose|i: int|
            0 <= i < self.entries@.len() && #[trigger] self.entries@[i].route.key() == key
    }

    /// In a well-formed table, an in-flight entry has a head request.
    pub proof fn lemma_in_flight_nonempty(self, i: int)
        requires
            self.wf(),
            0 <= i < self.entries@.len(),
            self.entries@[i].in_flight,
        ensures
            self.entries@[i].pending@.len() >= 1,
    {
    }

    /// An empty table.
    pub fn new() -> (r: Queue)
        ensures
            r.entries@.len() == 0,
            r.wf(),
    {
        Queue { entries: Vec::new() }
    }

    /// The index of the route's entry, or `None` when the route has never
    /// been seen.
    pub fn find(&self, route: &RequestRoute) -> (r: Option<usize>)
        ensures
            match r {
                Some(i) => i < self.entries@.len()
                    && self.entries@[i as int].route.key() == route.key(),
                None => !self.has_route(route.key()),
            },
    {
        let mut i: usize = 0;
        while i < self.entries.len()
            invariant
                i <= self.entries@.len(),
                forall|j: int|
                    0 <= j < i ==> #[trigger] self.entries@[j].route.key() != route.key(),
            decreases self.entries@.len() - i,
        {
            if self.entries[i].route.same_route(route) {
                return Some(i);
            }
            i = i + 1;
        }
        None
    }

    /// Enqueue a request under its route, preserving submission order: the
    /// request is appended to the route's FIFO, and a route never seen before
    /// gets a fresh entry appended at the end of the table (first-seen order),
    /// with an initial bucket, no block, and nothing in flight. No other
    /// entry changes.
    pub fn push(&mut self, route: &RequestRoute, request: PendingRequest)
        requires
            old(self).wf(),
        ensures
            final(self).wf(),
            final(self).has_route(route.key()),
            old(self).has_route(route.key()) ==> {
                let i = old(self).index_of(route.key());
                &&& final(self).entries@.len() == old(self).entries@.len()
                &&& final(self).entries@[i].route == old(self).entries@[i].route
                &&& final(self).entries@[i].pending@ == old(self).entries@[i].pending@.push(
                    request,
                )
                &&& final(self).entries@[i].bucket == old(self).entries@[i].bucket
                &&& final(self).entries@[i].in_flight == old(self).entries@[i].in_flight
                &&& final(self).entries@[i].blocked_until == old(self).entries@[i].blocked_until
                &&& forall|j: int|
                    0 <= j < old(self).entries@.len() && j != i
                        ==> final(self).entries@[j] == #[trigger] old(self).entries@[j]
            },
            !old(self).has_route(route.key()) ==> {
                &&& final(self).entries@.len() == old(self).entries@.len() + 1
                &&& forall|j: int|
                    0 <= j < old(self).entries@.len()
                        ==> final(self).entries@[j] == #[trigger] old(self).entries@[j]
                &&& final(self).entries@.last().route.key() == route.key()
                &&& final(self).entries@.last().pending@ == seq![request]
                &&& final(self).entries@.last().bucket.remaining == 1
                &&& final(self).entries@.last().bucket.reset_at == 0
                &&& !final(self).entries@.last().in_flight
                &&& final(self).entries@.last().blocked_until == 0
            },
    {
        let found = self.find(route);
        match found {
            Some(i) => {
                proof {
                    let k = route.key();
                    let w = old(self).index_of(k);
                    assert(old(self).has_route(k));
                    assert(0 <= w < old(self).entries@.len()
                        && old(self).entries@[w].route.key() == k);
                    assert(w == i as int);
                }
                let mut entry = self.entries.remove(i);
                entry.pending.push(request);
                self.entries.insert(i, entry);
                proof {
                    assert forall|j: int|
                        0 <= j < old(self).entries@.len() && j != i as int
                        implies final(self).entries@[j] == #[trigger] old(self).entries@[j] by {
                    }
                    assert(final(self).entries@[i as int].route.key() == route.key());
                }
            },
            None => {
                let mut pending: Vec<PendingRequest> = Vec::new();
                pending.push(request);
                let entry = RouteEntry {
                    route: route.clone(),
                    pending,
                    bucket: BucketState::initial(),
                    in_flight: false,
                    blocked_until: 0,
                };
                self.entries.push(entry);
                proof {
                    assert(final(self).entries@.last().pending@ =~= seq![request]);
                    assert(final(self).entries@[final(self).entries@.len() - 1].route.key()
                        == route.key());
                }
            },
        }
    }
}

} // verus!
