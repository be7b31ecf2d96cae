use easyflow_core::endpoint::SendError;
use easyflow_core::graph::{load_dataflow, Dataflow, OpenError, ResolutionError, Route};
use easyflow_core::token::CancelToken;

fn route(from: &str, to: &str) -> Route {
    Route { from: from.to_string(), to: to.to_string() }
}

fn names(nodes: &[&str]) -> Vec<String> {
    nodes.iter().map(|n| n.to_string()).collect()
}

fn fan_out() -> Dataflow {
    load_dataflow(names(&["a", "b", "c"]), vec![route("a", "b"), route("a", "c"), route("b", "c")])
        .unwrap()
}

#[test]
fn build_sender_takes_first_outgoing_route() {
    let g = fan_out();
    let s = g.build_sender("a").unwrap();
    assert_eq!(s.route().from, "a");
    assert_eq!(s.route().to, "b");
}

#[test]
fn build_sender_to_picks_the_peer() {
    let g = fan_out();
    let s = g.build_sender_to("a", "c").unwrap();
    assert_eq!(s.route().to, "c");
    assert!(matches!(g.build_sender_to("c", "a"), Err(ResolutionError::NoRoute)));
    match g.build_sender_to("a", "q") {
        Err(ResolutionError::UnknownNode(n)) => assert_eq!(n, "q"),
        other => panic!("unexpected {:?}", other.map(|_| ())),
    }
}

#[test]
fn unknown_node_fails_resolution() {
    let g = fan_out();
    match g.build_sender("nope") {
        Err(ResolutionError::UnknownNode(n)) => assert_eq!(n, "nope"),
        other => panic!("unexpected {:?}", other.map(|_| ())),
    }
    assert!(matches!(g.build_receiver("nope"), Err(ResolutionError::UnknownNode(_))));
}

#[test]
fn node_without_route_fails_resolution() {
    let g = fan_out();
    assert!(matches!(g.build_sender("c"), Err(ResolutionError::NoRoute)));
    assert!(matches!(g.build_receiver("a"), Err(ResolutionError::NoRoute)));
}

#[test]
fn build_receiver_takes_first_incoming_route() {
    let g = fan_out();
    let r = g.build_receiver("c").unwrap();
    assert_eq!(r.route.from, "a");
    let r = g.build_receiver_from("c", "b").unwrap();
    assert_eq!(r.route.from, "b");
    assert_eq!(r.route.to, "c");
    assert!(matches!(g.build_receiver_from("b", "c"), Err(ResolutionError::NoRoute)));
}

#[test]
fn resolution_is_repeatable() {
    let g = fan_out();
    let first = g.build_sender("b").unwrap();
    let second = g.build_sender("b").unwrap();
    assert_eq!(first.route().to, second.route().to);
}

#[test]
fn open_rejects_empty_name() {
    assert!(matches!(load_dataflow(names(&["a", ""]), vec![]), Err(OpenError::EmptyName)));
}

#[test]
fn open_rejects_duplicate_name() {
    match load_dataflow(names(&["a", "b", "a"]), vec![]) {
        Err(OpenError::DuplicateNode(n)) => assert_eq!(n, "a"),
        other => panic!("unexpected {:?}", other.map(|_| ())),
    }
}

#[test]
fn open_rejects_undeclared_endpoint() {
    match load_dataflow(names(&["a"]), vec![route("a", "z")]) {
        Err(OpenError::UndeclaredNode(n)) => assert_eq!(n, "z"),
        other => panic!("unexpected {:?}", other.map(|_| ())),
    }
}

#[test]
fn open_accepts_empty_graph() {
    let g = load_dataflow(vec![], vec![]).unwrap();
    assert!(!g.declares(&"a".to_string()));
}

#[test]
fn send_queues_in_order_until_closed() {
    let g = fan_out();
    let mut s = g.build_sender("a").unwrap();
    s.send(b"1").unwrap();
    s.send(b"").unwrap();
    s.send(b"3").unwrap();
    assert_eq!(s.take_pending(), vec![b"1".to_vec(), vec![], b"3".to_vec()]);
    assert!(s.take_pending().is_empty());
    s.send(b"4").unwrap();
    s.close();
    assert!(!s.is_open());
    assert!(matches!(s.send(b"5"), Err(SendError::Closed)));
    assert_eq!(s.take_pending(), vec![b"4".to_vec()]);
}

#[test]
fn token_counts_permits() {
    let mut t = CancelToken::new();
    assert!(!t.try_acquire());
    t.cancel();
    t.cancel();
    assert_eq!(t.permits(), 2);
    assert!(t.try_acquire());
    assert!(t.try_acquire());
    assert!(!t.try_acquire());
    assert_eq!(t.permits(), 0);
}
