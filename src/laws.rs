use vstd::prelude::*;
use crate::listener::{
    closed, consistent, handled_step, join_step, ready_step, Action, ListenerError, ListenerView,
    Ready, Stage, Termination,
};
use crate::endpoint::{send_step, SenderView};
use crate::graph::{default_in, default_out, first_fit, fits, valid_graph, DataflowView, RouteView};
use crate::token::added_permit;

verus! {

/// The loop fed, for each payload in turn, its arrival and then the
/// callback's success: the state reached and the actions of the arrivals.
pub open spec fn feed_messages(v: ListenerView, ms: Seq<Vec<u8>>) -> (ListenerView, Seq<Action>)
    decreases ms.len(),
{
    if ms.len() == 0 {
        (v, Seq::empty())
    } else {
        let (v1, a) = ready_step(v, Ready::Message(ms[0]));
        let (v2, _) = handled_step(v1, Ok(()));
        let (v3, rest) = feed_messages(v2, ms.drop_first());
        (v3, seq![a].add(rest))
    }
}

/// The loop fed a sequence of race outcomes: the state reached and the
/// actions it asked for.
pub open spec fn feed_ready(v: ListenerView, es: Seq<Ready>) -> (ListenerView, Seq<Action>)
    decreases es.len(),
{
    if es.len() == 0 {
        (v, Seq::empty())
    } else {
        let (v1, a) = ready_step(v, es[0]);
        let (v2, rest) = feed_ready(v1, es.drop_first());
        (v2, seq![a].add(rest))
    }
}

/// The first fitting route exists exactly when some route fits, and it is
/// one of the routes and fits.
pub proof fn lemma_first_fit(routes: Seq<RouteView>, from: Option<Seq<char>>, to: Option<Seq<char>>)
    ensures
        (first_fit(routes, from, to) is Some) <==> exists|k: int|
            0 <= k < routes.len() && fits(#[trigger] routes[k], from, to),
        first_fit(routes, from, to) matches Some(r) ==> fits(r, from, to) && routes.contains(r),
    decreases routes.len(),
{
    if routes.len() > 0 {
        let rest = routes.drop_first();
        lemma_first_fit(rest, from, to);
        if fits(routes[0], from, to) {
            assert(routes.contains(routes[0]));
        } else {
            if exists|k: int| 0 <= k < routes.len() && fits(#[trigger] routes[k], from, to) {
                let k = choose|k: int| 0 <= k < routes.len() && fits(#[trigger] routes[k], from, to);
                assert(rest[k - 1] == routes[k]);
            }
            if exists|k: int| 0 <= k < rest.len() && fits(#[trigger] rest[k], from, to) {
                let k = choose|k: int| 0 <= k < rest.len() && fits(#[trigger] rest[k], from, to);
                assert(routes[k + 1] == rest[k]);
            }
            if first_fit(routes, from, to) is Some {
                let r = first_fit(routes, from, to)->0;
                let j = choose|j: int| 0 <= j < rest.len() && rest[j] == r;
                assert(routes[j + 1] == r);
            }
        }
    }
}

/// Resolution: in a valid graph, a node's default outgoing (incoming) route
/// resolves exactly when some route leaves (enters) it, and only a declared
/// node has one; an unknown name never resolves.
pub proof fn lemma_resolution(g: DataflowView, node: Seq<char>)
    requires
        valid_graph(g),
    ensures
        (default_out(g, node) is Some) <==> exists|k: int|
            0 <= k < g.routes.len() && (#[trigger] g.routes[k]).0 == node,
        (default_in(g, node) is Some) <==> exists|k: int|
            0 <= k < g.routes.len() && (#[trigger] g.routes[k]).1 == node,
        !g.nodes.contains(node) ==> default_out(g, node) is None && default_in(g, node) is None,
{
    lemma_first_fit(g.routes, Some(node), None);
    lemma_first_fit(g.routes, None, Some(node));
    if default_out(g, node) is Some {
        let k = choose|k: int| 0 <= k < g.routes.len() && fits(#[trigger] g.routes[k], Some(node), None);
        assert(g.nodes.contains(g.routes[k].0));
    }
    if default_in(g, node) is Some {
        let k = choose|k: int| 0 <= k < g.routes.len() && fits(#[trigger] g.routes[k], None, Some(node));
        assert(g.nodes.contains(g.routes[k].0));
    }
}

/// A sender after sending each payload in turn.
pub open spec fn send_all(v: SenderView, ms: Seq<Seq<u8>>) -> SenderView
    decreases ms.len(),
{
    if ms.len() == 0 {
        v
    } else {
        send_all(send_step(v, ms[0]), ms.drop_first())
    }
}

/// Sending keeps order: payloads sent one after another on an open sender
/// wait behind those already queued, in the order they were sent.
pub proof fn lemma_send_order(v: SenderView, ms: Seq<Seq<u8>>)
    requires
        v.open,
    ensures
        send_all(v, ms).pending == v.pending + ms,
        send_all(v, ms).open,
        send_all(v, ms).route == v.route,
    decreases ms.len(),
{
    if ms.len() == 0 {
        assert(v.pending + ms =~= v.pending);
    } else {
        lemma_send_order(send_step(v, ms[0]), ms.drop_first());
        assert(v.pending.push(ms[0]) + ms.drop_first() =~= v.pending + ms);
    }
}

/// The state after `n` calls of `terminate`.
pub open spec fn terminated_times(v: ListenerView, n: nat) -> ListenerView
    decreases n,
{
    if n == 0 {
        v
    } else {
        let w = terminated_times(v, (n - 1) as nat);
        ListenerView { permits: added_permit(w.permits), ..w }
    }
}

/// Delivery order: payloads that arrive one after another, each handled
/// without error, are handed to the callback in that order, once each, and
/// the loop is left waiting as before.
pub proof fn lemma_delivery_order(v: ListenerView, ms: Seq<Vec<u8>>)
    requires
        v.stage == Stage::Waiting,
    ensures
        feed_messages(v, ms).0 == v,
        feed_messages(v, ms).1 == ms.map_values(|m: Vec<u8>| Action::Deliver(m)),
    decreases ms.len(),
{
    if ms.len() > 0 {
        let (v1, a) = ready_step(v, Ready::Message(ms[0]));
        let (v2, _) = handled_step(v1, Ok(()));
        assert(v2 == v);
        lemma_delivery_order(v, ms.drop_first());
        assert(seq![a].add(feed_messages(v, ms.drop_first()).1) =~= ms.map_values(
            |m: Vec<u8>| Action::Deliver(m),
        ));
    } else {
        assert(ms.map_values(|m: Vec<u8>| Action::Deliver(m)) =~= Seq::<Action>::empty());
    }
}

/// A clean end: when the channel closes, the loop stops as ended, is closed,
/// and collecting its outcome gives success.
pub proof fn lemma_stream_end_clean(v: ListenerView)
    requires
        v.stage == Stage::Waiting,
        consistent(v),
    ensures
        ready_step(v, Ready::End).0.stage == Stage::Stopped(Termination::StreamEnded),
        ready_step(v, Ready::End).1 == Action::Finish,
        closed(ready_step(v, Ready::End).0),
        join_step(ready_step(v, Ready::End).0).1 is Ok,
{
}

/// Cancelling is harmless: any number of `terminate` calls change only the
/// permit count, and a loop that has ended stays as it is on any further
/// outcome, asking for no delivery.
pub proof fn lemma_cancel_idempotent(v: ListenerView, n: nat, e: Ready)
    ensures
        terminated_times(v, n) == (ListenerView { permits: terminated_times(v, n).permits, ..v }),
        closed(v) ==> ready_step(terminated_times(v, n), e) == (terminated_times(v, n), Action::Finish),
    decreases n,
{
    if n > 0 {
        lemma_cancel_idempotent(v, (n - 1) as nat, e);
    }
}

/// Error surfacing: a callback failure stops the loop with that error; no
/// later outcome brings a delivery; collecting gives the error once and
/// success after that.
pub proof fn lemma_callback_failure(v: ListenerView, m: String, later: Seq<Ready>)
    requires
        v.stage == Stage::Delivering,
    ensures
        handled_step(v, Err(m)).0.stage == Stage::Stopped(Termination::CallbackFailed),
        handled_step(v, Err(m)).1 == Action::Finish,
        feed_ready(handled_step(v, Err(m)).0, later).0 == handled_step(v, Err(m)).0,
        forall|i: int|
            0 <= i < later.len() ==> #[trigger] feed_ready(handled_step(v, Err(m)).0, later).1[i]
                == Action::Finish,
        join_step(handled_step(v, Err(m)).0).1 == Err::<(), ListenerError>(
            ListenerError::Callback { message: m },
        ),
        join_step(join_step(handled_step(v, Err(m)).0).0).1 is Ok,
{
    lemma_stopped_absorbs(handled_step(v, Err(m)).0, later);
}

/// An ended loop stays as it is on any sequence of outcomes, asking only to
/// finish.
pub proof fn lemma_stopped_absorbs(v: ListenerView, es: Seq<Ready>)
    requires
        closed(v),
    ensures
        feed_ready(v, es).0 == v,
        feed_ready(v, es).1.len() == es.len(),
        forall|i: int| 0 <= i < es.len() ==> #[trigger] feed_ready(v, es).1[i] == Action::Finish,
    decreases es.len(),
{
    if es.len() > 0 {
        lemma_stopped_absorbs(v, es.drop_first());
        let rest = feed_ready(v, es.drop_first()).1;
        assert forall|i: int| 0 <= i < es.len() implies #[trigger] feed_ready(v, es).1[i]
            == Action::Finish by {
            if i > 0 {
                assert(feed_ready(v, es).1[i] == rest[i - 1]);
            }
        }
    }
}

/// Joining consumes: once the outcome has been collected, collecting again
/// gives success and changes nothing.
pub proof fn lemma_join_consumes(v: ListenerView)
    ensures
        join_step(join_step(v).0) == (join_step(v).0, Ok::<(), ListenerError>(())),
{
    assert(join_step(v).0 == (ListenerView { failure: None, ..join_step(v).0 }));
}

} // verus!
