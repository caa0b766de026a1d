use vstd::prelude::*;

verus! {

/// Where the application currently is: the parsed path, as an ordered list of
/// segments, together with any state the navigation carried.
///
/// A `RouteInfo` is owned by the router, replaced wholesale on every accepted
/// update and never mutated in place. A well-defined default exists so that a
/// router has a location before the first notification arrives.
#[derive(Debug, Clone)]
pub struct RouteInfo {
    /// The parsed path: one entry per path segment, in order.
    pub segments: Vec<String>,
    /// State the navigation carried alongside the path, if any.
    pub state: Option<String>,
}

/// The one notion of location equality: the parsed paths agree segment for
/// segment and the carried state agrees. Duplicate notifications are filtered
/// by exactly this relation.
pub open spec fn route_eq(a: RouteInfo, b: RouteInfo) -> bool {
    &&& a.segments@.len() == b.segments@.len()
    &&& forall|i: int| 0 <= i < a.segments@.len() ==> a.segments@[i]@ == b.segments@[i]@
    &&& match (a.state, b.state) {
        (Option::None, Option::None) => true,
        (Option::Some(x), Option::Some(y)) => x@ == y@,
        _ => false,
    }
}

impl RouteInfo {
    /// A location built from its parts.
    pub fn new(segments: Vec<String>, state: Option<String>) -> (r: RouteInfo)
        ensures
            r.segments == segments,
            r.state == state,
    {
        RouteInfo { segments, state }
    }
}

impl Default for RouteInfo {
    /// The initial location: an empty path and no state.
    fn default() -> (r: RouteInfo)
        ensures
            r.segments@.len() == 0,
            r.state is None,
    {
        RouteInfo { segments: Vec::new(), state: None }
    }
}

impl PartialEq for RouteInfo {
    fn eq(&self, other: &RouteInfo) -> (r: bool) {
        if self.segments.len() != other.segments.len() {
            return false;
        }
        let n = self.segments.len();
        let mut i: usize = 0;
        while i < n
            invariant
                i <= n,
                n == self.segments@.len(),
                n == other.segments@.len(),
                forall|k: int| 0 <= k < i ==> self.segments@[k]@ == other.segments@[k]@,
            decreases n - i,
        {
            if !(self.segments[i] == other.segments[i]) {
                return false;
            }
            i += 1;
        }
        match (&self.state, &other.state) {
            (Option::None, Option::None) => true,
            (Option::Some(x), Option::Some(y)) => *x == *y,
            _ => false,
        }
    }
}

impl vstd::std_specs::cmp::PartialEqSpecImpl for RouteInfo {
    open spec fn obeys_eq_spec() -> bool {
        true
    }

    open spec fn eq_spec(&self, other: &RouteInfo) -> bool {
        route_eq(*self, *other)
    }
}

} // verus!
