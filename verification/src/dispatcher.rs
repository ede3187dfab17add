//! The event dispatcher: fan-out of decoded dispatch payloads to every
//! handler registered for the payload's event type, in registration order,
//! with handler failures isolated from one another and from the stream.
//!
//! Handlers are identified by opaque ids; the runtime owns the callbacks and
//! invokes them as the computed plan directs, reporting each outcome back.

use vstd::prelude::*;

verus! {

/// The handlers owed an invocation for one payload: every handler registered
/// for `tag`, in registration order.
pub open spec fn plan_of(regs: Seq<(String, u64)>, tag: Seq<char>) -> Seq<u64>
    decreases regs.len(),
{
    if regs.len() == 0 {
        Seq::empty()
    } else {
        let rest = plan_of(regs.drop_last(), tag);
        if regs.last().0@ == tag {
            rest.push(regs.last().1)
        } else {
            rest
        }
    }
}

/// The handlers a delivery invokes: all of them, whatever the outcomes of
/// the handlers before each — a failure never suppresses a later handler.
pub open spec fn invoked_of(plan: Seq<u64>, outcomes: Seq<bool>) -> Seq<u64> {
    plan
}

/// The handlers whose outcome was a failure, in invocation order.
pub open spec fn failed_of(plan: Seq<u64>, outcomes: Seq<bool>) -> Seq<u64>
    decreases plan.len(),
{
    if plan.len() == 0 {
        Seq::empty()
    } else {
        let rest = failed_of(plan.drop_last(), outcomes.drop_last());
        if plan.len() <= outcomes.len() && !outcomes[plan.len() - 1] {
            rest.push(plan.last())
        } else {
            rest
        }
    }
}

/// What one delivery did: which handlers ran and which of them failed.
pub struct DeliveryReport {
    pub invoked: Vec<u64>,
    pub failed: Vec<u64>,
}

/// The registry of application handlers, keyed by event-type tag. Multiple
/// handlers per tag are permitted; all are invoked for every matching
/// payload.
pub struct EventDispatcher {
    /// Registrations in registration order: (event-type tag, handler id).
    pub registrations: Vec<(String, u64)>,
}

impl EventDispatcher {
    /// An empty registry.
    pub fn new() -> (r: EventDispatcher)
        ensures
            r.registrations@.len() == 0,
    {
        EventDispatcher { registrations: Vec::new() }
    }

    /// Add a handler to the fan-out list for an event type. Registration is
    /// process-lifetime; nothing is ever unregistered.
    pub fn register(&mut self, event_type: String, handler: u64)
        ensures
            final(self).registrations@ == old(self).registrations@.push((event_type, handler)),
    {
        self.registrations.push((event_type, handler));
    }

    /// The invocation plan for a payload of this event type: exactly the
    /// handlers registered for it, in registration order. Depends only on
    /// the registry and the tag — never on earlier deliveries' outcomes.
    pub fn dispatch_plan(&self, event_type: &String) -> (r: Vec<u64>)
        ensures
            r@ == plan_of(self.registrations@, event_type@),
    {
        let mut r: Vec<u64> = Vec::new();
        let mut i: usize = 0;
        while i < self.registrations.len()
            invariant
                i <= self.registrations@.len(),
                r@ == plan_of(self.registrations@.take(i as int), event_type@),
            decreases self.registrations@.len() - i,
        {
            proof {
                assert(self.registrations@.take(i + 1).drop_last() =~= self.registrations@.take(
                    i as int,
                ));
                assert(self.registrations@.take(i + 1).last() == self.registrations@[i as int]);
            }
            if self.registrations[i].0 == *event_type {
                r.push(self.registrations[i].1);
            }
            i = i + 1;
        }
        proof {
            assert(self.registrations@.take(self.registrations@.len() as int)
                =~= self.registrations@);
        }
        r
    }
}

/// Account for one delivery round: every planned handler is invoked —
/// `outcomes[k]` reports whether handler `plan[k]` succeeded — and the
/// failures are collected for the dispatcher-level error callback rather
/// than aborting the remaining handlers or the stream.
pub fn deliver(plan: &Vec<u64>, outcomes: &Vec<bool>) -> (r: DeliveryReport)
    requires
        plan@.len() == outcomes@.len(),
    ensures
        r.invoked@ == invoked_of(plan@, outcomes@),
        r.invoked@ == plan@,
        r.failed@ == failed_of(plan@, outcomes@),
{
    let mut invoked: Vec<u64> = Vec::new();
    let mut failed: Vec<u64> = Vec::new();
    let mut i: usize = 0;
    while i < plan.len()
        invariant
            i <= plan@.len(),
            plan@.len() == outcomes@.len(),
            invoked@ == plan@.take(i as int),
            failed@ == failed_of(plan@.take(i as int), outcomes@.take(i as int)),
        decreases plan@.len() - i,
    {
        proof {
            assert(plan@.take(i + 1).drop_last() =~= plan@.take(i as int));
            assert(outcomes@.take(i + 1).drop_last() =~= outcomes@.take(i as int));
            assert(plan@.take(i + 1).last() == plan@[i as int]);
        }
        invoked.push(plan[i]);
        if !outcomes[i] {
            failed.push(plan[i]);
        }
        i = i + 1;
    }
    proof {
        assert(plan@.take(plan@.len() as int) =~= plan@);
        assert(outcomes@.take(outcomes@.len() as int) =~= outcomes@);
    }
    DeliveryReport { invoked, failed }
}

/// Handler isolation: the handlers invoked for a payload are all of the
/// planned ones, whatever outcomes — including failures — the handlers
/// before each produced; two delivery rounds over the same plan invoke the
/// same handlers however their outcomes differ. Since delivery never touches
/// the registry, the plan of any subsequently dispatched event is likewise
/// untouched by earlier failures.
pub proof fn lemma_handler_isolation(plan: Seq<u64>, o1: Seq<bool>, o2: Seq<bool>)
    requires
        o1.len() == plan.len(),
        o2.len() == plan.len(),
    ensures
        invoked_of(plan, o1) == invoked_of(plan, o2),
        invoked_of(plan, o1) == plan,
{
}

} // verus!
