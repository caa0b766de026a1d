use vstd::prelude::*;
use crate::matcher::{Captures, PathMatcher};
use crate::route_info::{route_eq, RouteInfo};

verus! {

/// Properties for [`Route`]: the matcher the route is declared with.
#[derive(Debug, Clone)]
pub struct RouteProps {
    /// The path pattern and render target of this route.
    pub path: PathMatcher,
}

/// A single declared route: an immutable pairing of a path matcher and the
/// view it renders. Declared by the application, never mutated after
/// construction; a change to the declared set replaces whole routes, not
/// parts of one.
#[derive(Debug, Clone)]
pub struct Route {
    /// The declared properties of this route.
    pub props: RouteProps,
}

impl Route {
    /// Declare a route from its properties.
    pub fn create(props: RouteProps) -> (r: Route)
        ensures
            r.props == props,
    {
        Route { props }
    }

    /// A route has no messages of its own; nothing changes and no re-render
    /// is signalled.
    pub fn update(&mut self, _msg: ()) -> (r: bool)
        ensures
            *final(self) == *old(self),
            r == false,
    {
        false
    }

    /// Replace the route's declared properties; the new declaration always
    /// warrants a re-render.
    pub fn change(&mut self, props: RouteProps) -> (r: bool)
        ensures
            final(self).props == props,
            r == true,
    {
        self.props = props;
        true
    }
}

/// Properties for [`Router`]: the ordered collection of declared routes.
#[derive(Debug, Clone)]
pub struct Props {
    /// The declared routes, in declaration order. Read-only for the router;
    /// replaced only as a whole through [`Router::change`].
    pub children: Vec<Route>,
}

/// Message for [`Router`]: a location-change notification delivered by the
/// hosting layer's location channel.
pub enum Msg {
    /// The current location is now this value.
    UpdateRoute(RouteInfo),
}

/// The location a message carries.
pub open spec fn msg_route(msg: Msg) -> RouteInfo {
    match msg {
        Msg::UpdateRoute(r) => r,
    }
}

/// Output handed back to the hosting layer: either the winning route's view
/// or the neutral fallback.
#[derive(Debug, Clone, PartialEq)]
pub enum VNode {
    /// The winning route's output: which view it renders and the parameters
    /// its matcher extracted.
    Node { target: String, params: Captures },
    /// The well-defined empty fallback, produced exactly when no declared
    /// route matches.
    Empty,
}

/// The first declared route at or after position `k` whose matcher accepts
/// the location, if any. First match wins: the scan stops at the lowest such
/// position, never preferring a later or more specific route.
pub open spec fn spec_first_match(children: Seq<Route>, route: RouteInfo, k: int) -> Option<int>
    decreases children.len() - k,
{
    if k < 0 || k >= children.len() {
        None
    } else if children[k].props.path.spec_matches(route) {
        Some(k)
    } else {
        spec_first_match(children, route, k + 1)
    }
}

/// Everything [`Router::view`] promises of its output `r`: when some route
/// matches, `r` is the first matching route's view name with that route's
/// extracted parameters; when none matches, `r` is the empty fallback.
pub open spec fn view_post(router: Router, r: VNode) -> bool {
    match spec_first_match(router.props.children@, router.route, 0) {
        Some(i) => match r {
            VNode::Node { target, params } => {
                &&& target == router.props.children@[i].props.path.target
                &&& params.entries@ == router.props.children@[i].props.path.spec_captures(
                    router.route,
                )
            },
            VNode::Empty => false,
        },
        None => r == VNode::Empty,
    }
}

/// Rendering control-flow core. Owns the current location, holds the ordered
/// declared routes, and on demand resolves the location to the first matching
/// route's output.
///
/// The hosting layer owns the location channel: it subscribes at creation,
/// requests the authoritative current location once, and delivers every
/// inbound value — the initial response and later changes alike — through
/// [`Router::update`].
#[derive(Debug)]
pub struct Router {
    /// The current location: always the most recently accepted update, never
    /// stale relative to the last processed notification.
    pub route: RouteInfo,
    /// The declared routes, in declaration order.
    pub props: Props,
}

impl Router {
    /// Build a router over the declared routes. The location starts at its
    /// default value and holds it until the first notification arrives.
    pub fn create(props: Props) -> (r: Router)
        ensures
            r.props == props,
            r.route.segments@.len() == 0,
            r.route.state is None,
    {
        Router { route: Default::default(), props }
    }

    /// Accept a location-change notification: store the new location
    /// unconditionally, and signal "re-render needed" exactly when the new
    /// value differs from the stored one. A notification delivering an equal
    /// value — a duplicate delivery — never signals.
    pub fn update(&mut self, msg: Msg) -> (r: bool)
        ensures
            final(self).route == msg_route(msg),
            final(self).props == old(self).props,
            r == !route_eq(old(self).route, msg_route(msg)),
    {
        match msg {
            Msg::UpdateRoute(route) => {
                let did_change = self.route != route;
                self.route = route;
                did_change
            },
        }
    }

    /// Replace the declared routes wholesale. A structural replacement always
    /// signals "re-render needed" — no equality check, since the views behind
    /// equal-looking declarations may differ.
    pub fn change(&mut self, props: Props) -> (r: bool)
        ensures
            final(self).props == props,
            final(self).route == old(self).route,
            r == true,
    {
        self.props = props;
        true
    }

    /// The dispatch algorithm: scan the declared routes in declaration order,
    /// stop at the first whose matcher accepts the current location, and
    /// return that route's output with the extracted parameters. When the
    /// scan exhausts the collection, return the empty fallback — the
    /// operationally significant no-match outcome the hosting layer reports.
    pub fn view(&self) -> (r: VNode)
        ensures
            view_post(*self, r),
    {
        let n = self.props.children.len();
        let mut k: usize = 0;
        while k < n
            invariant
                k <= n,
                n == self.props.children@.len(),
                spec_first_match(self.props.children@, self.route, 0) == spec_first_match(
                    self.props.children@,
                    self.route,
                    k as int,
                ),
            decreases n - k,
        {
            match self.props.children[k].props.path.try_match(&self.route) {
                Some(params) => {
                    let target = self.props.children[k].props.path.target.clone();
                    return VNode::Node { target, params };
                },
                None => {},
            }
            k += 1;
        }
        VNode::Empty
    }
}

/// Collapsing one level of optional nesting, usable on stable toolchains.
pub trait Flatten<T> {
    /// What collapsing yields: the inner option when there is one, `None`
    /// otherwise.
    spec fn spec_flatten(self) -> Option<T>;

    /// Collapse one level of nesting.
    fn flatten_stable(self) -> (r: Option<T>)
        ensures
            r == self.spec_flatten(),
    ;
}

impl<T> Flatten<T> for Option<Option<T>> {
    open spec fn spec_flatten(self) -> Option<T> {
        match self {
            Option::None => None,
            Option::Some(v) => v,
        }
    }

    fn flatten_stable(self) -> (r: Option<T>) {
        match self {
            Option::None => None,
            Option::Some(v) => v,
        }
    }
}

/// First-match law: when the scan from position `k` yields a winner, that
/// winner's matcher accepts the location and no earlier candidate's does —
/// the output never comes from a later route, even if a later one would also
/// match. When it yields none, no candidate's matcher accepts the location.
pub proof fn lemma_first_match_is_first(children: Seq<Route>, route: RouteInfo, k: int)
    requires
        0 <= k <= children.len(),
    ensures
        match spec_first_match(children, route, k) {
            Some(i) => {
                &&& k <= i < children.len()
                &&& children[i].props.path.spec_matches(route)
                &&& forall|j: int| k <= j < i ==> !children[j].props.path.spec_matches(route)
            },
            None => forall|j: int|
                k <= j < children.len() ==> !children[j].props.path.spec_matches(route),
        },
    decreases children.len() - k,
{
    if k < children.len() && !children[k].props.path.spec_matches(route) {
        lemma_first_match_is_first(children, route, k + 1);
    }
}

/// Dispatch law: rendered output is the first matching declared route's view,
/// never a later one; and it is the empty fallback exactly when no declared
/// route matches the current location — in particular whenever no route is
/// declared at all.
pub proof fn lemma_dispatch(router: Router, r: VNode)
    requires
        view_post(router, r),
    ensures
        match spec_first_match(router.props.children@, router.route, 0) {
            Some(i) => {
                &&& 0 <= i < router.props.children@.len()
                &&& router.props.children@[i].props.path.spec_matches(router.route)
                &&& forall|j: int|
                    0 <= j < i ==> !router.props.children@[j].props.path.spec_matches(router.route)
                &&& r matches VNode::Node { target, params }
                &&& !(r is Empty)
            },
            None => {
                &&& forall|j: int|
                    0 <= j < router.props.children@.len()
                        ==> !router.props.children@[j].props.path.spec_matches(router.route)
                &&& r == VNode::Empty
            },
        },
{
    lemma_first_match_is_first(router.props.children@, router.route, 0);
}

/// Two outputs agree in every observable respect: same outcome, same view
/// name, same extracted parameters.
pub open spec fn vnode_equiv(a: VNode, b: VNode) -> bool {
    match (a, b) {
        (VNode::Node { target: t1, params: p1 }, VNode::Node { target: t2, params: p2 }) => t1
            == t2 && p1.entries@ == p2.entries@,
        (VNode::Empty, VNode::Empty) => true,
        _ => false,
    }
}

/// Idempotence law: rendering is a pure function of the router's state. Two
/// renders with no intervening state change produce outputs that agree in
/// every observable respect.
pub proof fn lemma_view_idempotent(router: Router, r1: VNode, r2: VNode)
    requires
        view_post(router, r1),
        view_post(router, r2),
    ensures
        vnode_equiv(r1, r2),
{
}

} // verus!
