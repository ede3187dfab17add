//! Core machinery for a rate-limited REST client paired with a streaming
//! gateway session: per-route request queueing against tracked rate-limit
//! buckets, the connection/heartbeat/resume state machine, and the event
//! dispatch and command routing layers.

pub mod application_command;
pub mod bucket;
pub mod decimal;
pub mod dispatcher;
pub mod interaction_type;
pub mod message;
pub mod payload;
pub mod queue;
pub mod request;
pub mod route;
pub mod router;
pub mod scheduler;
pub mod session;

use vstd::prelude::*;

verus! {

/// A server-assigned object id.
#[derive(Clone, Copy, PartialEq, Eq, Structural, Debug, Hash)]
pub struct Snowflake(pub u64);

} // verus!
