use easyflow_core::graph::{load_dataflow, Dataflow, Route};
use easyflow_core::listener::{Action, Listener, ListenerError, Ready, Stage, Termination};

fn route(from: &str, to: &str) -> Route {
    Route { from: from.to_string(), to: to.to_string() }
}

fn graph(nodes: &[&str], routes: &[(&str, &str)]) -> Dataflow {
    let nodes = nodes.iter().map(|n| n.to_string()).collect();
    let routes = routes.iter().map(|(f, t)| route(f, t)).collect();
    load_dataflow(nodes, routes).expect("valid topology")
}

/// Drives one message through the loop, recording what the callback sees.
fn deliver(l: &mut Listener, payload: &[u8], seen: &mut Vec<Vec<u8>>, fail: bool) -> Action {
    match l.on_ready(Ready::Message(payload.to_vec())) {
        Action::Deliver(p) => {
            seen.push(p);
            let res = if fail { Err("callback raised".to_string()) } else { Ok(()) };
            l.on_handled(res)
        }
        other => other,
    }
}

#[test]
fn scenario_two_messages_then_clean_end() {
    let g = graph(&["a", "b"], &[("a", "b")]);
    let mut sender = g.build_sender("a").unwrap();
    sender.send(b"hello").unwrap();
    sender.send(b"world").unwrap();
    let mut l = g.listen("b").unwrap();
    let mut seen = Vec::new();
    for p in sender.take_pending() {
        assert!(matches!(deliver(&mut l, &p, &mut seen, false), Action::Wait));
    }
    drop(sender);
    assert!(matches!(l.on_ready(Ready::End), Action::Finish));
    assert_eq!(seen, vec![b"hello".to_vec(), b"world".to_vec()]);
    assert!(l.is_closed());
    assert_eq!(l.stage(), Stage::Stopped(Termination::StreamEnded));
    assert!(l.wait().is_ok());
}

#[test]
fn scenario_terminate_before_any_message() {
    let g = graph(&["w", "x"], &[("w", "x")]);
    let mut l = g.listen("x").unwrap();
    assert!(!l.is_closed());
    l.terminate();
    assert!(matches!(l.on_ready(Ready::Permit), Action::Finish));
    assert!(l.is_closed());
    assert_eq!(l.stage(), Stage::Stopped(Termination::Cancelled));
    assert!(l.wait().is_ok());
}

#[test]
fn scenario_callback_fails_on_second_of_three() {
    let g = graph(&["a", "b"], &[("a", "b")]);
    let mut l = g.listen("b").unwrap();
    let mut seen = Vec::new();
    assert!(matches!(deliver(&mut l, b"one", &mut seen, false), Action::Wait));
    assert!(matches!(deliver(&mut l, b"two", &mut seen, true), Action::Finish));
    assert!(matches!(deliver(&mut l, b"three", &mut seen, false), Action::Finish));
    assert_eq!(seen, vec![b"one".to_vec(), b"two".to_vec()]);
    assert!(l.is_closed());
    match l.wait() {
        Err(ListenerError::Callback { message }) => assert_eq!(message, "callback raised"),
        other => panic!("unexpected outcome {:?}", other),
    }
    assert!(l.wait().is_ok());
}

#[test]
fn delivery_keeps_order_of_many() {
    let g = graph(&["a", "b"], &[("a", "b")]);
    let mut l = g.listen("b").unwrap();
    let mut seen = Vec::new();
    let sent: Vec<Vec<u8>> = (0u8..20).map(|i| vec![i, i + 1]).collect();
    for p in &sent {
        assert!(matches!(deliver(&mut l, p, &mut seen, false), Action::Wait));
    }
    assert_eq!(seen, sent);
    assert_eq!(l.stage(), Stage::Waiting);
}

#[test]
fn receive_failure_names_the_node() {
    let g = graph(&["a", "b"], &[("a", "b")]);
    let mut l = g.listen("b").unwrap();
    assert!(matches!(l.on_ready(Ready::Failed("link down".to_string())), Action::Finish));
    assert_eq!(l.stage(), Stage::Stopped(Termination::ReceiveFailed));
    match l.wait() {
        Err(ListenerError::Receive { node, message }) => {
            assert_eq!(node, "b");
            assert_eq!(message, "link down");
        }
        other => panic!("unexpected outcome {:?}", other),
    }
    assert!(l.wait().is_ok());
}

#[test]
fn permit_without_terminate_keeps_waiting() {
    let g = graph(&["a", "b"], &[("a", "b")]);
    let mut l = g.listen("b").unwrap();
    assert!(matches!(l.on_ready(Ready::Permit), Action::Wait));
    assert!(!l.is_closed());
}

#[test]
fn terminate_many_times_is_harmless() {
    let g = graph(&["a", "b"], &[("a", "b")]);
    let mut l = g.listen("b").unwrap();
    for _ in 0..5 {
        l.terminate();
    }
    assert!(matches!(l.on_ready(Ready::Permit), Action::Finish));
    for _ in 0..5 {
        l.terminate();
    }
    assert!(matches!(l.on_ready(Ready::Permit), Action::Finish));
    assert!(matches!(l.on_ready(Ready::Message(b"late".to_vec())), Action::Finish));
    assert_eq!(l.stage(), Stage::Stopped(Termination::Cancelled));
    assert!(l.wait().is_ok());
    assert!(l.wait().is_ok());
}

#[test]
fn message_wins_over_pending_permit_when_first() {
    let g = graph(&["a", "b"], &[("a", "b")]);
    let mut l = g.listen("b").unwrap();
    l.terminate();
    let mut seen = Vec::new();
    assert!(matches!(deliver(&mut l, b"in flight", &mut seen, false), Action::Wait));
    assert_eq!(seen, vec![b"in flight".to_vec()]);
    assert!(matches!(l.on_ready(Ready::Permit), Action::Finish));
}

#[test]
fn listen_from_uses_the_named_route() {
    let g = graph(&["a", "b", "c"], &[("a", "c"), ("b", "c")]);
    let l = g.listen_from("c", "b").unwrap();
    assert_eq!(l.node(), "c");
    assert!(g.listen_from("c", "c").is_err());
    assert!(g.listen("zz").is_err());
}
