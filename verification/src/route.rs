//! Route identity: a rate-limit-scoped endpoint family, independent of minor
//! path parameters. Two requests with the same templated path and major
//! parameter share rate-limit state even when their full URLs differ.

use vstd::prelude::*;

verus! {

/// Identifies a logical endpoint family: a templated path (minor parameters
/// left as placeholders) plus the major parameter that groups rate limits.
pub struct RequestRoute {
    /// The templated path, e.g. `/channels/{channel.id}/messages`.
    pub base_route: String,
    /// The resource id that rate limits are grouped by; empty when the
    /// endpoint family has no major parameter.
    pub major_param: String,
}

impl RequestRoute {
    /// The mathematical identity of a route: the pair of its two components'
    /// character sequences. Route equality is equality of this key.
    pub open spec fn key(self) -> (Seq<char>, Seq<char>) {
        (self.base_route@, self.major_param@)
    }

    /// Whether two routes identify the same endpoint family.
    pub fn same_route(&self, other: &RequestRoute) -> (r: bool)
        ensures
            r == (self.key() == other.key()),
    {
        self.base_route == other.base_route && self.major_param == other.major_param
    }
}

impl Clone for RequestRoute {
    /// A clone carries the same key.
    fn clone(&self) -> (r: RequestRoute)
        ensures
            r.key() == self.key(),
    {
        RequestRoute { base_route: self.base_route.clone(), major_param: self.major_param.clone() }
    }
}

} // verus!
