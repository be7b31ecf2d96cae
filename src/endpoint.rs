use vstd::prelude::*;
use crate::graph::{Route, RouteView};

verus! {

/// Why a payload was not accepted for sending.
#[derive(Debug)]
pub enum SendError {
    /// The channel, or the transport under it, has been torn down.
    Closed,
}

/// Exclusive write access to one channel. Payloads that are sent wait, in
/// order, until the transport takes them.
pub struct Sender {
    route: Route,
    open: bool,
    pending: Vec<Vec<u8>>,
}

/// What a sender is: its route, whether it still accepts payloads, and the
/// payloads that wait for the transport.
pub struct SenderView {
    pub route: RouteView,
    pub open: bool,
    pub pending: Seq<Seq<u8>>,
}

/// The bytes of a list of payloads.
pub open spec fn payloads_view(v: Seq<Vec<u8>>) -> Seq<Seq<u8>> {
    v.map_values(|p: Vec<u8>| p@)
}

impl View for Sender {
    type V = SenderView;

    closed spec fn view(&self) -> SenderView {
        SenderView { route: self.route@, open: self.open, pending: payloads_view(self.pending@) }
    }
}

/// A send on a sender: an open one queues the payload last; a closed one
/// stays as it is.
pub open spec fn send_step(v: SenderView, payload: Seq<u8>) -> SenderView {
    if v.open {
        SenderView { pending: v.pending.push(payload), ..v }
    } else {
        v
    }
}

impl Sender {
    /// An open sender on `route` with nothing waiting.
    pub fn new(route: Route) -> (r: Sender)
        ensures
            r@.route == route@,
            r@.open,
            r@.pending.len() == 0,
    {
        Sender { route, open: true, pending: Vec::new() }
    }

    /// The route that this sender writes into.
    pub fn route(&self) -> (r: &Route)
        ensures
            r@ == self@.route,
    {
        &self.route
    }

    /// Whether the sender still accepts payloads.
    pub fn is_open(&self) -> (r: bool)
        ensures
            r == self@.open,
    {
        self.open
    }

    /// Queues `payload` behind those sent before it; fails once the channel
    /// has been torn down.
    pub fn send(&mut self, payload: &[u8]) -> (r: Result<(), SendError>)
        ensures
            r is Ok <==> old(self)@.open,
            final(self)@ == send_step(old(self)@, payload@),
    {
        if !self.open {
            return Err(SendError::Closed);
        }
        let mut copy: Vec<u8> = Vec::new();
        let mut i: usize = 0;
        while i < payload.len()
            invariant
                0 <= i <= payload@.len(),
                copy@ == payload@.subrange(0, i as int),
            decreases payload@.len() - i,
        {
            copy.push(payload[i]);
            i = i + 1;
        }
        assert(copy@ =~= payload@);
        self.pending.push(copy);
        assert(payloads_view(self.pending@) =~= old(self)@.pending.push(payload@));
        Ok(())
    }

    /// Hands the waiting payloads to the transport, oldest first.
    pub fn take_pending(&mut self) -> (r: Vec<Vec<u8>>)
        ensures
            payloads_view(r@) == old(self)@.pending,
            final(self)@.route == old(self)@.route,
            final(self)@.open == old(self)@.open,
            final(self)@.pending.len() == 0,
    {
        let mut out: Vec<Vec<u8>> = Vec::new();
        std::mem::swap(&mut out, &mut self.pending);
        assert(payloads_view(self.pending@) =~= Seq::<Seq<u8>>::empty());
        out
    }

    /// Marks the channel as torn down: later sends fail. What waits stays.
    pub fn close(&mut self)
        ensures
            final(self)@.route == old(self)@.route,
            !final(self)@.open,
            final(self)@.pending == old(self)@.pending,
    {
        self.open = false;
    }
}

/// Exclusive read access to one channel.
pub struct Receiver {
    pub route: Route,
}

impl View for Receiver {
    type V = RouteView;

    open spec fn view(&self) -> RouteView {
        self.route@
    }
}

} // verus!
