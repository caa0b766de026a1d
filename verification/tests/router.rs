use yew_router::matcher::{PathMatcher, Segment};
use yew_router::route_info::RouteInfo;
use yew_router::router::{Flatten, Msg, Props, Route, RouteProps, Router, VNode};

fn lit(x: &str) -> Segment {
    Segment::Literal(x.to_string())
}

fn cap(x: &str) -> Segment {
    Segment::Capture(x.to_string())
}

fn loc(parts: &[&str]) -> RouteInfo {
    RouteInfo::new(parts.iter().map(|p| p.to_string()).collect(), None)
}

fn route(segments: Vec<Segment>, target: &str) -> Route {
    Route::create(RouteProps {
        path: PathMatcher::new(segments, target.to_string()).unwrap(),
    })
}

fn target_of(v: &VNode) -> &str {
    match v {
        VNode::Node { target, .. } => target.as_str(),
        VNode::Empty => panic!("expected a rendered route, got the fallback"),
    }
}

#[test]
fn update_signals_iff_location_changed() {
    let mut router = Router::create(Props { children: vec![route(vec![Segment::Rest], "B")] });
    assert!(router.update(Msg::UpdateRoute(loc(&["a"]))));
    assert!(!router.update(Msg::UpdateRoute(loc(&["a"]))));
    assert!(router.update(Msg::UpdateRoute(loc(&["b"]))));
    assert!(router.update(Msg::UpdateRoute(loc(&["a"]))));
}

#[test]
fn duplicate_notification_signals_exactly_once() {
    let mut router = Router::create(Props { children: vec![] });
    let mut signals = 0;
    for _ in 0..2 {
        if router.update(Msg::UpdateRoute(loc(&["same", "place"]))) {
            signals += 1;
        }
    }
    assert_eq!(signals, 1);
}

#[test]
fn initial_location_is_the_default() {
    let mut router = Router::create(Props { children: vec![] });
    // Delivering the default location again changes nothing, so no signal.
    assert!(!router.update(Msg::UpdateRoute(RouteInfo::default())));
}

#[test]
fn first_matching_route_wins() {
    let children = vec![route(vec![Segment::Rest], "first"), route(vec![Segment::Rest], "second")];
    let mut router = Router::create(Props { children });
    router.update(Msg::UpdateRoute(loc(&["anything"])));
    assert_eq!(target_of(&router.view()), "first");
}

#[test]
fn specific_route_before_catch_all() {
    let children = vec![route(vec![lit("a")], "A"), route(vec![Segment::Rest], "B")];
    let mut router = Router::create(Props { children });
    router.update(Msg::UpdateRoute(loc(&["a"])));
    assert_eq!(target_of(&router.view()), "A");
}

#[test]
fn catch_all_still_counts_as_a_match() {
    let children = vec![route(vec![lit("a")], "A"), route(vec![Segment::Rest], "B")];
    let mut router = Router::create(Props { children });
    router.update(Msg::UpdateRoute(loc(&["z"])));
    assert_eq!(target_of(&router.view()), "B");
}

#[test]
fn capture_reaches_the_rendered_output() {
    let children = vec![route(vec![lit("x"), cap("id")], "A")];
    let mut router = Router::create(Props { children });
    router.update(Msg::UpdateRoute(loc(&["x", "42"])));
    match router.view() {
        VNode::Node { target, params } => {
            assert_eq!(target, "A");
            assert_eq!(params.get(&"id".to_string()), Some("42".to_string()));
        },
        VNode::Empty => panic!("route should have matched"),
    }
}

#[test]
fn no_declared_routes_renders_the_fallback() {
    let mut router = Router::create(Props { children: vec![] });
    assert_eq!(router.view(), VNode::Empty);
    router.update(Msg::UpdateRoute(loc(&["anything", "else"])));
    assert_eq!(router.view(), VNode::Empty);
}

#[test]
fn no_matching_route_renders_the_fallback() {
    let children = vec![route(vec![lit("a")], "A"), route(vec![lit("b")], "B")];
    let mut router = Router::create(Props { children });
    router.update(Msg::UpdateRoute(loc(&["z"])));
    assert_eq!(router.view(), VNode::Empty);
}

#[test]
fn repeated_renders_are_identical() {
    let children = vec![route(vec![lit("x"), cap("id")], "A"), route(vec![Segment::Rest], "B")];
    let mut router = Router::create(Props { children });
    router.update(Msg::UpdateRoute(loc(&["x", "7"])));
    let first = router.view();
    let second = router.view();
    let third = router.view();
    assert_eq!(first, second);
    assert_eq!(second, third);
}

#[test]
fn replacing_definitions_always_signals() {
    let mut router = Router::create(Props { children: vec![route(vec![lit("a")], "A")] });
    // Even a replacement that looks identical forces a re-render.
    assert!(router.change(Props { children: vec![route(vec![lit("a")], "A")] }));
    assert!(router.change(Props { children: vec![route(vec![lit("b")], "B")] }));
    router.update(Msg::UpdateRoute(loc(&["b"])));
    assert_eq!(target_of(&router.view()), "B");
}

#[test]
fn route_component_lifecycle() {
    let mut r = route(vec![lit("a")], "A");
    assert!(!r.update(()));
    assert_eq!(r.props.path.target, "A");
    let replaced = r.change(RouteProps {
        path: PathMatcher::new(vec![lit("b")], "B".to_string()).unwrap(),
    });
    assert!(replaced);
    assert_eq!(r.props.path.target, "B");
}

#[test]
fn flatten_stable_collapses_one_level() {
    assert_eq!(Some(Some(5)).flatten_stable(), Some(5));
    assert_eq!(Some(None::<i32>).flatten_stable(), None);
    assert_eq!(None::<Option<i32>>.flatten_stable(), None);
}
