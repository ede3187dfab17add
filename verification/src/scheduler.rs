//! The rate-limited request scheduler: admits queued requests against per-route
//! bucket state and one process-wide global limiter, round-robin-fair across
//! routes, with at most one request in flight per route, bounded retry on
//! rate-limit rejection and timeout, and terminal resolution for everything
//! else.
//!
//! The scheduler itself performs no I/O: `next_issue` decides which request
//! may be issued now, and `on_response` folds the outcome of the issued call
//! back into the state. The surrounding runtime performs the calls and feeds
//! outcomes back.

use vstd::prelude::*;

use crate::queue::{Queue, RouteEntry};
use crate::request::{Method, PendingRequest, RequestError};
use crate::route::RequestRoute;

verus! {

/// Rate-limit fields a successful response may carry.
pub struct RateInfo {
    pub remaining: u64,
    pub limit: u64,
    pub reset_at: u64,
    pub bucket_id: Option<String>,
}

/// The transport's report of one issued call.
pub enum ResponseOutcome {
    /// The call completed; `rate` holds the server's bucket values when the
    /// response carried them.
    Success { status: u16, rate: Option<RateInfo> },
    /// A rate-limit rejection carrying the server's retry-after delay and
    /// whether the rejection engages the global limiter.
    RateLimited { retry_after: u64, global: bool },
    /// The per-attempt timeout elapsed; transient, retried under the same
    /// policy as a rate-limit rejection but with the default backoff.
    TimedOut,
    /// A network fault; terminal, never retried internally.
    NetworkFailed,
    /// A non-rate-limit protocol rejection; terminal.
    Rejected { status: u16 },
}

/// What became of the request whose response was folded in.
pub enum Disposition {
    /// The request's completion handle resolves successfully.
    Completed { id: u64, status: u16 },
    /// The request stays at the head of its route's queue for another
    /// attempt once `until` has passed.
    Requeued { id: u64, until: u64 },
    /// The request's completion handle resolves with a terminal error.
    Failed { id: u64, error: RequestError },
}

/// `a + b`, saturating at the top of the range.
pub open spec fn sat_add_spec(a: u64, b: u64) -> u64 {
    if a + b > u64::MAX {
        u64::MAX
    } else {
        (a + b) as u64
    }
}

pub fn sat_add(a: u64, b: u64) -> (r: u64)
    ensures
        r == sat_add_spec(a, b),
{
    if a > u64::MAX - b {
        u64::MAX
    } else {
        a + b
    }
}

/// How many consecutive rate-limit rejections a head request with `attempts`
/// rejections already recorded still absorbs before it is resolved with a
/// terminal rate-limit error, under attempt ceiling `ceiling`. Each rejection
/// either requeues the request with one more attempt recorded or, when the
/// ceiling is reached, fails it — exactly as `on_response` does.
pub open spec fn rejections_to_failure(attempts: u64, ceiling: u64) -> nat
    recommends
        attempts < ceiling,
    decreases ceiling - attempts,
    when attempts < ceiling
{
    if attempts + 1 >= ceiling {
        1
    } else {
        1 + rejections_to_failure((attempts + 1) as u64, ceiling)
    }
}

/// The scheduler: the route table, the single process-wide global limiter
/// deadline, and the retry policy.
pub struct Scheduler {
    pub queue: Queue,
    /// No call for any route may be issued before this instant: the global
    /// limiter, a single shared state across all routes.
    pub global_blocked_until: u64,
    /// The attempt ceiling: a request absorbs this many transient rejections
    /// before it is resolved with a terminal rate-limit error.
    pub max_attempts: u64,
    /// The route block applied after a timed-out attempt, where the server
    /// supplied no retry-after delay.
    pub default_backoff: u64,
    /// The id the next submitted request will receive.
    pub next_request_id: u64,
    /// Round-robin scan position for fair draining across routes.
    pub cursor: usize,
}

impl Scheduler {
    /// Well-formedness: the route table is well-formed, the ceiling is
    /// positive, every queued id was handed out before `next_request_id`,
    /// and no queued request has already reached the ceiling.
    pub open spec fn wf(self) -> bool {
        &&& self.queue.wf()
        &&& self.max_attempts >= 1
        &&& forall|i: int, k: int|
            0 <= i < self.queue.entries@.len() && 0 <= k < self.queue.entries@[i].pending@.len()
                ==> #[trigger] self.queue.entries@[i].pending@[k].id < self.next_request_id
        &&& forall|i: int, k: int|
            0 <= i < self.queue.entries@.len() && 0 <= k < self.queue.entries@[i].pending@.len()
                ==> #[trigger] self.queue.entries@[i].pending@[k].attempts < self.max_attempts
    }

    /// Entry `i` may be issued a call at `now`: it has pending work whose
    /// head is not already in flight, its bucket admits a call, it is not
    /// blocked by an earlier rate-limit rejection, and the global limiter is
    /// not engaged.
    pub open spec fn eligible(self, i: int, now: u64) -> bool {
        &&& 0 <= i < self.queue.entries@.len()
        &&& !self.queue.entries@[i].in_flight
        &&& self.queue.entries@[i].pending@.len() > 0
        &&& self.queue.entries@[i].bucket.available_spec(now)
        &&& self.queue.entries@[i].blocked_until <= now
        &&& self.global_blocked_until <= now
    }

    /// A scheduler with no queued work and the given retry policy.
    pub fn new(max_attempts: u64, default_backoff: u64) -> (r: Scheduler)
        requires
            max_attempts >= 1,
        ensures
            r.wf(),
            r.queue.entries@.len() == 0,
            r.global_blocked_until == 0,
            r.max_attempts == max_attempts,
            r.default_backoff == default_backoff,
            r.next_request_id == 0,
    {
        Scheduler {
            queue: Queue::new(),
            global_blocked_until: 0,
            max_attempts,
            default_backoff,
            next_request_id: 0,
            cursor: 0,
        }
    }

    /// Enqueue a request under its route and return its completion handle id.
    /// Never blocks: the request is appended at the back of the route's FIFO
    /// (submission order), a route never seen before gets a fresh entry at
    /// the end of the table, and no other entry, block, or policy field
    /// changes. The returned id is fresh: it differs from every id queued
    /// anywhere in the table.
    pub fn submit(
        &mut self,
        route: &RequestRoute,
        method: Method,
        uri: String,
        headers: Vec<(String, String)>,
        body: Option<String>,
    ) -> (id: u64)
        requires
            old(self).wf(),
            old(self).next_request_id < u64::MAX,
        ensures
            final(self).wf(),
            id == old(self).next_request_id,
            final(self).next_request_id == old(self).next_request_id + 1,
            final(self).global_blocked_until == old(self).global_blocked_until,
            final(self).max_attempts == old(self).max_attempts,
            final(self).default_backoff == old(self).default_backoff,
            forall|i: int, k: int|
                0 <= i < old(self).queue.entries@.len() && 0 <= k < old(self).queue.entries@[i].pending@.len() ==> #[trigger] old(self).queue.entries@[i].pending@[k].id != id,
            final(self).queue.has_route(route.key()),
            ({
                let req = PendingRequest {
                    id: old(self).next_request_id,
                    method,
                    uri,
                    headers,
                    body,
                    attempts: 0,
                };
                if old(self).queue.has_route(route.key()) {
                    let i = old(self).queue.index_of(route.key());
                    &&& final(self).queue.entries@.len() == old(self).queue.entries@.len()
                    &&& final(self).queue.entries@[i].route == old(self).queue.entries@[i].route
                    &&& final(self).queue.entries@[i].pending@ == old(self).queue.entries@[i].pending@.push(req)
                    &&& final(self).queue.entries@[i].bucket == old(self).queue.entries@[i].bucket
                    &&& final(self).queue.entries@[i].in_flight == old(self).queue.entries@[i].in_flight
                    &&& final(self).queue.entries@[i].blocked_until == old(self).queue.entries@[i].blocked_until
                    &&& forall|j: int|
                        0 <= j < old(self).queue.entries@.len() && j != i ==> final(self).queue.entries@[j] == #[trigger] old(self).queue.entries@[j]
                } else {
                    &&& final(self).queue.entries@.len() == old(self).queue.entries@.len() + 1
                    &&& forall|j: int|
                        0 <= j < old(self).queue.entries@.len() ==> final(self).queue.entries@[j]
                            == #[trigger] old(self).queue.entries@[j]
                    &&& final(self).queue.entries@.last().route.key() == route.key()
                    &&& final(self).queue.entries@.last().pending@ == seq![req]
                    &&& final(self).queue.entries@.last().bucket.remaining == 1
                    &&& final(self).queue.entries@.last().bucket.reset_at == 0
                    &&& !final(self).queue.entries@.last().in_flight
                    &&& final(self).queue.entries@.last().blocked_until == 0
                }
            }),
    {
        let id = self.next_request_id;
        let request = PendingRequest { id, method, uri, headers, body, attempts: 0 };
        self.queue.push(route, request);
        self.next_request_id = id + 1;
        proof {
            let k = route.key();
            let fq = final(self).queue.entries@;
            let oq = old(self).queue.entries@;
            assert forall|a: int, b: int|
                0 <= a < fq.len() && 0 <= b < fq[a].pending@.len()
                implies #[trigger] fq[a].pending@[b] == request || (0 <= a < oq.len() && b
                    < oq[a].pending@.len() && fq[a].pending@[b] == oq[a].pending@[b]) by {
                if old(self).queue.has_route(k) {
                    let i = old(self).queue.index_of(k);
                    if a == i {
                        if b < oq[a].pending@.len() {
                            assert(fq[a].pending@[b] == oq[a].pending@[b]);
                        } else {
                            assert(fq[a].pending@[b] == request);
                        }
                    } else {
                        assert(fq[a] == oq[a]);
                    }
                } else {
                    if a < oq.len() {
                        assert(fq[a] == oq[a]);
                    } else {
                        assert(fq[a].pending@[b] == request);
                    }
                }
            }
            assert forall|a: int, b: int|
                0 <= a < fq.len() && 0 <= b < fq[a].pending@.len()
                implies #[trigger] fq[a].pending@[b].id < final(self).next_request_id by {
                assert(fq[a].pending@[b] == request || (0 <= a < oq.len() && b
                    < oq[a].pending@.len() && fq[a].pending@[b] == oq[a].pending@[b]));
            }
            assert forall|a: int, b: int|
                0 <= a < fq.len() && 0 <= b < fq[a].pending@.len()
                implies #[trigger] fq[a].pending@[b].attempts < final(self).max_attempts by {
                assert(fq[a].pending@[b] == request || (0 <= a < oq.len() && b
                    < oq[a].pending@.len() && fq[a].pending@[b] == oq[a].pending@[b]));
            }
        }
        id
    }

    /// Decide which request, if any, may be issued at `now`, scanning the
    /// route table round-robin from the last decision point. When a request
    /// is issued: it is the head (earliest submitted) of an eligible route,
    /// the route is marked in flight so no second request of that route can
    /// overlap it, and its bucket records the call. When no request is
    /// issued, no route was eligible — in particular, nothing is issued while
    /// the global limiter is engaged, and no route with an exhausted,
    /// un-reset bucket is ever picked.
    pub fn next_issue(&mut self, now: u64) -> (r: Option<(usize, u64)>)
        requires
            old(self).wf(),
        ensures
            final(self).wf(),
            final(self).global_blocked_until == old(self).global_blocked_until,
            final(self).max_attempts == old(self).max_attempts,
            final(self).default_backoff == old(self).default_backoff,
            final(self).next_request_id == old(self).next_request_id,
            match r {
                Some((i, id)) => {
                    &&& old(self).eligible(i as int, now)
                    &&& id == old(self).queue.entries@[i as int].pending@[0].id
                    &&& final(self).queue.entries@.len() == old(self).queue.entries@.len()
                    &&& final(self).queue.entries@[i as int].route == old(self).queue.entries@[i as int].route
                    &&& final(self).queue.entries@[i as int].pending@ == old(self).queue.entries@[i as int].pending@
                    &&& final(self).queue.entries@[i as int].in_flight
                    &&& final(self).queue.entries@[i as int].blocked_until == old(self).queue.entries@[i as int].blocked_until
                    &&& final(self).queue.entries@[i as int].bucket.remaining == if old(self).queue.entries@[i as int].bucket.remaining > 0 {
                        (old(self).queue.entries@[i as int].bucket.remaining - 1) as u64
                    } else {
                        0u64
                    }
                    &&& final(self).queue.entries@[i as int].bucket.reset_at == old(self).queue.entries@[i as int].bucket.reset_at
                    &&& forall|j: int|
                        0 <= j < old(self).queue.entries@.len() && j != i as int ==> final(self).queue.entries@[j] == #[trigger] old(self).queue.entries@[j]
                },
                None => {
                    &&& final(self).queue.entries@ == old(self).queue.entries@
                    &&& forall|i: int| !old(self).eligible(i, now)
                },
            },
    {
        let len = self.queue.entries.len();
        if len == 0 {
            return None;
        }
        if now < self.global_blocked_until {
            return None;
        }
        let start = if self.cursor < len {
            self.cursor
        } else {
            0
        };
        let mut k: usize = 0;
        while k < len
            invariant
                old(self).wf(),
                *self == *old(self),
                start < len,
                len == self.queue.entries@.len(),
                k <= len,
                self.global_blocked_until <= now,
                forall|k2: int|
                    0 <= k2 < k ==> !old(self).eligible(wrap_index(start as int, k2, len as int), now),
            decreases len - k,
        {
            let idx = if k < len - start {
                start + k
            } else {
                k - (len - start)
            };
            proof {
                assert(idx as int == wrap_index(start as int, k as int, len as int));
            }
            let e = &self.queue.entries[idx];
            let ok = !e.in_flight && e.pending.len() > 0 && e.bucket.available(now)
                && e.blocked_until <= now;
            if ok {
                let mut entry = self.queue.entries.remove(idx);
                let id = entry.pending[0].id;
                entry.in_flight = true;
                entry.bucket.on_issue();
                self.queue.entries.insert(idx, entry);
                self.cursor = idx + 1;
                proof {
                    assert forall|j: int|
                        0 <= j < old(self).queue.entries@.len() && j != idx as int
                        implies final(self).queue.entries@[j] == #[trigger] old(self).queue.entries@[j] by {}
                    assert(final(self).wf());
                }
                return Some((idx, id));
            }
            k = k + 1;
        }
        proof {
            assert forall|i: int| !old(self).eligible(i, now) by {
                if 0 <= i < len as int {
                    let k2: int = if i >= start as int {
                        i - start as int
                    } else {
                        i + len as int - start as int
                    };
                    assert(0 <= k2 < len as int);
                    assert(wrap_index(start as int, k2, len as int) == i);
                    assert(!old(self).eligible(i, now));
                }
            }
        }
        None
    }

    /// Fold the outcome of the issued call for entry `i` back into the state.
    /// The head request is resolved (success or terminal error) and popped,
    /// or — on a rate-limit rejection or timeout below the attempt ceiling —
    /// requeued at the head with one more attempt recorded, preserving
    /// submission order. A global rate-limit rejection engages the single
    /// global limiter; a per-route one blocks only the offending route. A
    /// successful response re-synchronizes the bucket from server-provided
    /// values when it carries them. The rejection that makes the recorded
    /// attempts reach the ceiling — and only that one — fails the request
    /// with a terminal rate-limit error, so a fresh, always-rejected request
    /// fails after exactly `rejections_to_failure(0, max_attempts)
    /// == max_attempts` rejections. No other entry changes.
    pub fn on_response(&mut self, i: usize, now: u64, outcome: ResponseOutcome) -> (r: Disposition)
        requires
            old(self).wf(),
            i < old(self).queue.entries@.len(),
            old(self).queue.entries@[i as int].in_flight,
        ensures
            final(self).wf(),
            final(self).max_attempts == old(self).max_attempts,
            final(self).default_backoff == old(self).default_backoff,
            final(self).next_request_id == old(self).next_request_id,
            final(self).queue.entries@.len() == old(self).queue.entries@.len(),
            final(self).queue.entries@[i as int].route == old(self).queue.entries@[i as int].route,
            !final(self).queue.entries@[i as int].in_flight,
            forall|j: int|
                0 <= j < old(self).queue.entries@.len() && j != i as int ==> final(self).queue.entries@[j] == #[trigger] old(self).queue.entries@[j],
            ({
                let head = old(self).queue.entries@[i as int].pending@[0];
                let rest = old(self).queue.entries@[i as int].pending@.drop_first();
                let oldentry = old(self).queue.entries@[i as int];
                let newentry = final(self).queue.entries@[i as int];
                match outcome {
                    ResponseOutcome::Success { status, rate } => {
                        &&& r == Disposition::Completed { id: head.id, status }
                        &&& newentry.pending@ == rest
                        &&& match rate {
                            Some(info) => {
                                &&& newentry.bucket.remaining == info.remaining
                                &&& newentry.bucket.limit == info.limit
                                &&& newentry.bucket.reset_at == info.reset_at
                                &&& newentry.bucket.bucket_id == info.bucket_id
                            },
                            None => newentry.bucket == oldentry.bucket,
                        }
                        &&& newentry.blocked_until == oldentry.blocked_until
                        &&& final(self).global_blocked_until == old(self).global_blocked_until
                    },
                    ResponseOutcome::RateLimited { retry_after, global } => {
                        &&& newentry.bucket == oldentry.bucket
                        &&& if global {
                            &&& final(self).global_blocked_until == sat_add_spec(now, retry_after)
                            &&& newentry.blocked_until == oldentry.blocked_until
                        } else {
                            &&& final(self).global_blocked_until == old(self).global_blocked_until
                            &&& newentry.blocked_until == sat_add_spec(now, retry_after)
                        }
                        &&& if head.attempts + 1 < old(self).max_attempts {
                            &&& r == Disposition::Requeued {
                                id: head.id,
                                until: sat_add_spec(now, retry_after),
                            }
                            &&& newentry.pending@ == oldentry.pending@.update(
                                0,
                                PendingRequest { attempts: (head.attempts + 1) as u64, ..head },
                            )
                        } else {
                            &&& r == Disposition::Failed {
                                id: head.id,
                                error: RequestError::RateLimitExhausted,
                            }
                            &&& newentry.pending@ == rest
                        }
                    },
                    ResponseOutcome::TimedOut => {
                        &&& newentry.bucket == oldentry.bucket
                        &&& final(self).global_blocked_until == old(self).global_blocked_until
                        &&& newentry.blocked_until == sat_add_spec(now, old(self).default_backoff)
                        &&& if head.attempts + 1 < old(self).max_attempts {
                            &&& r == Disposition::Requeued {
                                id: head.id,
                                until: sat_add_spec(now, old(self).default_backoff),
                            }
                            &&& newentry.pending@ == oldentry.pending@.update(
                                0,
                                PendingRequest { attempts: (head.attempts + 1) as u64, ..head },
                            )
                        } else {
                            &&& r == Disposition::Failed {
                                id: head.id,
                                error: RequestError::RateLimitExhausted,
                            }
                            &&& newentry.pending@ == rest
                        }
                    },
                    ResponseOutcome::NetworkFailed => {
                        &&& r == Disposition::Failed { id: head.id, error: RequestError::Network }
                        &&& newentry.pending@ == rest
                        &&& newentry.bucket == oldentry.bucket
                        &&& newentry.blocked_until == oldentry.blocked_until
                        &&& final(self).global_blocked_until == old(self).global_blocked_until
                    },
                    ResponseOutcome::Rejected { status } => {
                        &&& r == Disposition::Failed {
                            id: head.id,
                            error: RequestError::Protocol { status },
                        }
                        &&& newentry.pending@ == rest
                        &&& newentry.bucket == oldentry.bucket
                        &&& newentry.blocked_until == oldentry.blocked_until
                        &&& final(self).global_blocked_until == old(self).global_blocked_until
                    },
                }
            }),
    {
        let mut entry = self.queue.entries.remove(i);
        entry.in_flight = false;
        let r: Disposition;
        match outcome {
            ResponseOutcome::Success { status, rate } => {
                let head = entry.pending.remove(0);
                match rate {
                    Some(info) => {
                        entry.bucket.resync(info.remaining, info.limit, info.reset_at, info.bucket_id);
                    },
                    None => {},
                }
                r = Disposition::Completed { id: head.id, status };
            },
            ResponseOutcome::RateLimited { retry_after, global } => {
                let until = sat_add(now, retry_after);
                if global {
                    self.global_blocked_until = until;
                } else {
                    entry.blocked_until = until;
                }
                let mut head = entry.pending.remove(0);
                let id = head.id;
                if head.attempts + 1 < self.max_attempts {
                    head.attempts = head.attempts + 1;
                    entry.pending.insert(0, head);
                    r = Disposition::Requeued { id, until };
                } else {
                    r = Disposition::Failed { id, error: RequestError::RateLimitExhausted };
                }
            },
            ResponseOutcome::TimedOut => {
                let until = sat_add(now, self.default_backoff);
                entry.blocked_until = until;
                let mut head = entry.pending.remove(0);
                let id = head.id;
                if head.attempts + 1 < self.max_attempts {
                    head.attempts = head.attempts + 1;
                    entry.pending.insert(0, head);
                    r = Disposition::Requeued { id, until };
                } else {
                    r = Disposition::Failed { id, error: RequestError::RateLimitExhausted };
                }
            },
            ResponseOutcome::NetworkFailed => {
                let head = entry.pending.remove(0);
                r = Disposition::Failed { id: head.id, error: RequestError::Network };
            },
            ResponseOutcome::Rejected { status } => {
                let head = entry.pending.remove(0);
                r = Disposition::Failed { id: head.id, error: RequestError::Protocol { status } };
            },
        }
        self.queue.entries.insert(i, entry);
        proof {
            assert forall|j: int|
                0 <= j < old(self).queue.entries@.len() && j != i as int
                implies final(self).queue.entries@[j] == #[trigger] old(self).queue.entries@[j] by {}
        }
        r
    }

    /// Shut the scheduler down: every request not yet dispatched is removed
    /// and its id returned, in table order then submission order, for its
    /// completion handle to be resolved with a cancellation error. A request
    /// already in flight is left at its head to finish; routes, buckets,
    /// blocks and policy are untouched.
    pub fn shutdown(&mut self) -> (cancelled: Vec<u64>)
        requires
            old(self).wf(),
        ensures
            final(self).wf(),
            cancelled@ == cancelled_of(old(self).queue.entries@),
            final(self).global_blocked_until == old(self).global_blocked_until,
            final(self).max_attempts == old(self).max_attempts,
            final(self).default_backoff == old(self).default_backoff,
            final(self).next_request_id == old(self).next_request_id,
            final(self).queue.entries@.len() == old(self).queue.entries@.len(),
            forall|j: int|
                0 <= j < old(self).queue.entries@.len() ==> {
                    &&& (#[trigger] final(self).queue.entries@[j]).route == old(self).queue.entries@[j].route
                    &&& final(self).queue.entries@[j].bucket == old(self).queue.entries@[j].bucket
                    &&& final(self).queue.entries@[j].in_flight == old(self).queue.entries@[j].in_flight
                    &&& final(self).queue.entries@[j].blocked_until == old(self).queue.entries@[j].blocked_until
                    &&& final(self).queue.entries@[j].pending@ == if old(self).queue.entries@[j].in_flight {
                        old(self).queue.entries@[j].pending@.take(1)
                    } else {
                        Seq::<PendingRequest>::empty()
                    }
                },
    {
        let ghost oldentries = old(self).queue.entries@;
        let mut cancelled: Vec<u64> = Vec::new();
        let len = self.queue.entries.len();
        let mut i: usize = 0;
        proof {
            assert(oldentries.take(0) =~= Seq::<RouteEntry>::empty());
        }
        while i < len
            invariant
                old(self).wf(),
                oldentries == old(self).queue.entries@,
                i <= len,
                len == oldentries.len(),
                self.queue.entries@.len() == len,
                self.global_blocked_until == old(self).global_blocked_until,
                self.max_attempts == old(self).max_attempts,
                self.default_backoff == old(self).default_backoff,
                self.next_request_id == old(self).next_request_id,
                self.cursor == old(self).cursor,
                cancelled@ == cancelled_of(oldentries.take(i as int)),
                forall|j: int| i <= j < len ==> self.queue.entries@[j] == #[trigger] oldentries[j],
                forall|j: int|
                    0 <= j < i ==> {
                        &&& (#[trigger] self.queue.entries@[j]).route == oldentries[j].route
                        &&& self.queue.entries@[j].bucket == oldentries[j].bucket
                        &&& self.queue.entries@[j].in_flight == oldentries[j].in_flight
                        &&& self.queue.entries@[j].blocked_until == oldentries[j].blocked_until
                        &&& self.queue.entries@[j].pending@ == if oldentries[j].in_flight {
                            oldentries[j].pending@.take(1)
                        } else {
                            Seq::<PendingRequest>::empty()
                        }
                    },
            decreases len - i,
        {
            let mut entry = self.queue.entries.remove(i);
            proof {
                assert(entry == oldentries[i as int]);
                if entry.in_flight {
                    old(self).queue.lemma_in_flight_nonempty(i as int);
                }
            }
            let mut kept: Vec<PendingRequest> = Vec::new();
            if entry.in_flight {
                let head = entry.pending.remove(0);
                kept.push(head);
                proof {
                    assert(kept@ =~= oldentries[i as int].pending@.take(1));
                }
            }
            proof {
                assert(entry.pending@ == waiting_of(oldentries[i as int]));
                assert(ids_of(entry.pending@.take(0)) =~= Seq::<u64>::empty());
            }
            let ghost cancelled_before = cancelled@;
            let mut k: usize = 0;
            while k < entry.pending.len()
                invariant
                    k <= entry.pending@.len(),
                    cancelled@ == cancelled_before + ids_of(entry.pending@.take(k as int)),
                decreases entry.pending@.len() - k,
            {
                proof {
                    assert(ids_of(entry.pending@.take(k + 1)) =~= ids_of(
                        entry.pending@.take(k as int),
                    ).push(entry.pending@[k as int].id));
                }
                cancelled.push(entry.pending[k].id);
                k = k + 1;
            }
            proof {
                assert(entry.pending@.take(entry.pending@.len() as int) =~= entry.pending@);
            }
            entry.pending = kept;
            self.queue.entries.insert(i, entry);
            proof {
                assert(oldentries.take(i + 1).drop_last() =~= oldentries.take(i as int));
                assert(oldentries.take(i + 1).last() == oldentries[i as int]);
                if oldentries[i as int].in_flight {
                    assert(self.queue.entries@[i as int].pending@ =~= oldentries[i as int].pending@.take(1));
                }
            }
            i = i + 1;
        }
        proof {
            assert(oldentries.take(len as int) =~= oldentries);
            let fq = final(self).queue.entries@;
            assert forall|a: int, b: int|
                0 <= a < fq.len() && 0 <= b < fq[a].pending@.len()
                implies #[trigger] fq[a].pending@[b].id < final(self).next_request_id by {
                assert(fq[a].pending@[b] == oldentries[a].pending@[b]);
            }
            assert forall|a: int, b: int|
                0 <= a < fq.len() && 0 <= b < fq[a].pending@.len()
                implies #[trigger] fq[a].pending@[b].attempts < final(self).max_attempts by {
                assert(fq[a].pending@[b] == oldentries[a].pending@[b]);
            }
        }
        cancelled
    }
}

/// The requests of one entry still awaiting dispatch: everything but an
/// in-flight head.
pub open spec fn waiting_of(e: RouteEntry) -> Seq<PendingRequest> {
    if e.in_flight {
        e.pending@.drop_first()
    } else {
        e.pending@
    }
}

/// The completion handle ids of a request sequence, in order.
pub open spec fn ids_of(s: Seq<PendingRequest>) -> Seq<u64> {
    s.map_values(|p: PendingRequest| p.id)
}

/// The ids a shutdown resolves with a cancellation error: every request not
/// yet dispatched, per entry in table order, per request in submission order.
pub open spec fn cancelled_of(entries: Seq<RouteEntry>) -> Seq<u64>
    decreases entries.len(),
{
    if entries.len() == 0 {
        Seq::empty()
    } else {
        cancelled_of(entries.drop_last()) + ids_of(waiting_of(entries.last()))
    }
}

/// The table index reached from scan start `start` after `k` steps, wrapping
/// at `len`.
pub open spec fn wrap_index(start: int, k: int, len: int) -> int {
    if start + k >= len {
        start + k - len
    } else {
        start + k
    }
}

/// Route serialization: a route with a request in flight is never eligible,
/// so no two calls for one route overlap in time; together with `submit`
/// appending at the back and `next_issue` taking the head, calls for one
/// route are issued in submission order.
pub proof fn lemma_route_serialization(s: Scheduler, i: int, now: u64)
    requires
        0 <= i < s.queue.entries@.len(),
        s.queue.entries@[i].in_flight,
    ensures
        !s.eligible(i, now),
{
}

/// Bucket respect: a route whose tracked `remaining` is zero and whose
/// `reset_at` has not passed is never eligible, so the scheduler never
/// issues a call against an exhausted bucket.
pub proof fn lemma_bucket_respect(s: Scheduler, i: int, now: u64)
    requires
        0 <= i < s.queue.entries@.len(),
        s.queue.entries@[i].bucket.remaining == 0,
        now < s.queue.entries@[i].bucket.reset_at,
    ensures
        !s.eligible(i, now),
{
}

/// Global limiter exclusivity: while the global limiter is engaged, no route
/// is eligible, whatever its own bucket or block state.
pub proof fn lemma_global_exclusivity(s: Scheduler, i: int, now: u64)
    requires
        now < s.global_blocked_until,
    ensures
        !s.eligible(i, now),
{
}

/// Retry bound: a head request with `attempts` rejections already recorded,
/// rejected on every further attempt, is requeued on each rejection but the
/// last and resolved terminally on rejection number `ceiling - attempts` —
/// never fewer, never more. A fresh request therefore fails after exactly
/// `ceiling` rejections.
pub proof fn lemma_retry_bound(attempts: u64, ceiling: u64)
    requires
        attempts < ceiling,
    ensures
        rejections_to_failure(attempts, ceiling) == ceiling - attempts,
        attempts == 0 ==> rejections_to_failure(attempts, ceiling) == ceiling,
    decreases ceiling - attempts,
{
    if attempts + 1 >= ceiling {
    } else {
        lemma_retry_bound((attempts + 1) as u64, ceiling);
    }
}

} // verus!
