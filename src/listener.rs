use vstd::prelude::*;
use crate::endpoint::Receiver;
use crate::graph::{
    default_in, resolved_one, resolved_two, route_between, Dataflow, ResolutionError, RouteView,
};
use crate::token::{added_permit, CancelToken};

verus! {

/// How a delivery loop ended.
#[derive(Clone, Copy, Debug, PartialEq, Eq, Structural)]
pub enum Termination {
    /// A permit of the cancellation token won the race.
    Cancelled,
    /// The far end closed the channel.
    StreamEnded,
    /// The transport failed while receiving.
    ReceiveFailed,
    /// The callback failed on a message.
    CallbackFailed,
}

/// Where a delivery loop stands.
#[derive(Clone, Copy, Debug, PartialEq, Eq, Structural)]
pub enum Stage {
    /// Racing the next message against a permit.
    Waiting,
    /// The callback is running on a message.
    Delivering,
    /// Ended; nothing more happens.
    Stopped(Termination),
}

/// An error that ended a delivery loop.
#[derive(Debug)]
pub enum ListenerError {
    /// The transport failed while receiving on `node`.
    Receive { node: String, message: String },
    /// The callback failed on a message.
    Callback { message: String },
}

/// What resolved first in the race that a waiting loop runs.
pub enum Ready {
    /// A permit of the cancellation token.
    Permit,
    /// The next payload of the channel.
    Message(Vec<u8>),
    /// The channel is closed; no more messages.
    End,
    /// The transport failed.
    Failed(String),
}

/// What the runtime does next.
#[derive(Debug)]
pub enum Action {
    /// Race the next message against a permit again.
    Wait,
    /// Call the callback with this payload, then report how it went.
    Deliver(Vec<u8>),
    /// The loop has ended.
    Finish,
}

/// The delivery loop of one receiver: its node, its cancellation token, where
/// it stands, and the error that ended it until that error is collected.
pub struct Listener {
    receiver: Receiver,
    token: CancelToken,
    stage: Stage,
    failure: Option<ListenerError>,
}

/// What a listener is: the route it drains (the writing node's name, then its
/// own node), its permits, where its loop stands, and the error not yet collected.
pub struct ListenerView {
    pub from: Seq<char>,
    pub node: String,
    pub permits: nat,
    pub stage: Stage,
    pub failure: Option<ListenerError>,
}

impl View for Listener {
    type V = ListenerView;

    closed spec fn view(&self) -> ListenerView {
        ListenerView {
            from: self.receiver.route.from@,
            node: self.receiver.route.to,
            permits: self.token@,
            stage: self.stage,
            failure: self.failure,
        }
    }
}

/// An error is held only by a loop that ended on one.
pub open spec fn consistent(v: ListenerView) -> bool {
    match v.stage {
        Stage::Stopped(Termination::ReceiveFailed) => true,
        Stage::Stopped(Termination::CallbackFailed) => true,
        _ => v.failure is None,
    }
}

/// The closed flag: set once the loop has ended.
pub open spec fn closed(v: ListenerView) -> bool {
    v.stage is Stopped
}

/// A loop that has just started.
pub open spec fn fresh(v: ListenerView, node: String) -> bool {
    v.node == node && v.permits == 0 && v.stage == Stage::Waiting && v.failure is None
}

/// One step on the outcome of the race. An ended loop stays as it is.
pub open spec fn ready_step(v: ListenerView, e: Ready) -> (ListenerView, Action) {
    match v.stage {
        Stage::Waiting => match e {
            Ready::Permit => if v.permits > 0 {
                (
                    ListenerView {
                        permits: (v.permits - 1) as nat,
                        stage: Stage::Stopped(Termination::Cancelled),
                        ..v
                    },
                    Action::Finish,
                )
            } else {
                (v, Action::Wait)
            },
            Ready::Message(p) => (ListenerView { stage: Stage::Delivering, ..v }, Action::Deliver(p)),
            Ready::End => (
                ListenerView { stage: Stage::Stopped(Termination::StreamEnded), ..v },
                Action::Finish,
            ),
            Ready::Failed(m) => (
                ListenerView {
                    stage: Stage::Stopped(Termination::ReceiveFailed),
                    failure: Some(ListenerError::Receive { node: v.node, message: m }),
                    ..v
                },
                Action::Finish,
            ),
        },
        Stage::Delivering => (v, Action::Wait),
        Stage::Stopped(_) => (v, Action::Finish),
    }
}

/// One step on the callback's result. An ended loop stays as it is.
pub open spec fn handled_step(v: ListenerView, res: Result<(), String>) -> (ListenerView, Action) {
    match v.stage {
        Stage::Delivering => match res {
            Ok(()) => (ListenerView { stage: Stage::Waiting, ..v }, Action::Wait),
            Err(m) => (
                ListenerView {
                    stage: Stage::Stopped(Termination::CallbackFailed),
                    failure: Some(ListenerError::Callback { message: m }),
                    ..v
                },
                Action::Finish,
            ),
        },
        Stage::Waiting => (v, Action::Wait),
        Stage::Stopped(_) => (v, Action::Finish),
    }
}

/// Collecting the outcome: the stored error once, success after that.
pub open spec fn join_step(v: ListenerView) -> (ListenerView, Result<(), ListenerError>) {
    (
        ListenerView { failure: None, ..v },
        match v.failure {
            Some(e) => Err(e),
            None => Ok(()),
        },
    )
}

/// The route that a started listener drains, or the error.
pub open spec fn listener_route(r: Result<Listener, ResolutionError>) -> Result<RouteView, ResolutionError> {
    match r {
        Ok(l) => Ok((l@.from, l@.node@)),
        Err(e) => Err(e),
    }
}

impl Listener {
    /// Starts the delivery loop of `receiver`: waiting, no permit, no error.
    pub fn new(receiver: Receiver) -> (r: Listener)
        ensures
            fresh(r@, receiver.route.to),
            r@.from == receiver.route.from@,
            consistent(r@),
    {
        Listener {
            receiver,
            token: CancelToken::new(),
            stage: Stage::Waiting,
            failure: None,
        }
    }

    /// The node whose channel this loop drains.
    pub fn node(&self) -> (r: &String)
        ensures
            *r == self@.node,
    {
        &self.receiver.route.to
    }

    /// Where the loop stands.
    pub fn stage(&self) -> (r: Stage)
        ensures
            r == self@.stage,
    {
        self.stage
    }

    /// Asks the loop to stop by adding a permit. Any number of calls, before
    /// or after the loop ended, change nothing else.
    pub fn terminate(&mut self)
        ensures
            final(self)@ == (ListenerView { permits: added_permit(old(self)@.permits), ..old(self)@ }),
    {
        self.token.cancel();
    }

    /// Whether the loop has ended.
    pub fn is_closed(&self) -> (r: bool)
        ensures
            r == closed(self@),
    {
        match self.stage {
            Stage::Stopped(_) => true,
            _ => false,
        }
    }

    /// Advances the loop on whichever of the channel and the cancellation token was ready first.
    pub fn on_ready(&mut self, e: Ready) -> (r: Action)
        requires
            old(self)@.stage != Stage::Delivering,
            consistent(old(self)@),
        ensures
            (final(self)@, r) == ready_step(old(self)@, e),
            consistent(final(self)@),
    {
        match self.stage {
            Stage::Stopped(_) => {
                return Action::Finish;
            },
            _ => {},
        }
        match e {
            Ready::Permit => {
                if self.token.try_acquire() {
                    self.stage = Stage::Stopped(Termination::Cancelled);
                    Action::Finish
                } else {
                    Action::Wait
                }
            },
            Ready::Message(p) => {
                self.stage = Stage::Delivering;
                Action::Deliver(p)
            },
            Ready::End => {
                self.stage = Stage::Stopped(Termination::StreamEnded);
                Action::Finish
            },
            Ready::Failed(m) => {
                self.stage = Stage::Stopped(Termination::ReceiveFailed);
                self.failure = Some(ListenerError::Receive { node: self.receiver.route.to.clone(), message: m });
                Action::Finish
            },
        }
    }

    /// Takes the callback's result on the payload last delivered.
    pub fn on_handled(&mut self, res: Result<(), String>) -> (r: Action)
        requires
            old(self)@.stage != Stage::Waiting,
            consistent(old(self)@),
        ensures
            (final(self)@, r) == handled_step(old(self)@, res),
            consistent(final(self)@),
    {
        match self.stage {
            Stage::Stopped(_) => {
                return Action::Finish;
            },
            _ => {},
        }
        match res {
            Ok(()) => {
                self.stage = Stage::Waiting;
                Action::Wait
            },
            Err(m) => {
                self.stage = Stage::Stopped(Termination::CallbackFailed);
                self.failure = Some(ListenerError::Callback { message: m });
                Action::Finish
            },
        }
    }

    /// Collects the outcome of an ended loop: the error that ended it the
    /// first time, success on every later call.
    pub fn wait(&mut self) -> (r: Result<(), ListenerError>)
        requires
            closed(old(self)@),
        ensures
            (final(self)@, r) == join_step(old(self)@),
            consistent(final(self)@),
    {
        match self.failure.take() {
            Some(e) => Err(e),
            None => Ok(()),
        }
    }
}

impl Dataflow {
    /// Starts a listener on `node`'s default incoming route.
    pub fn listen(&self, node: &str) -> (r: Result<Listener, ResolutionError>)
        ensures
            resolved_one(self@, node@, default_in(self@, node@), listener_route(r)),
            r matches Ok(l) ==> fresh(l@, l@.node) && consistent(l@),
    {
        match self.build_receiver(node) {
            Ok(receiver) => Ok(Listener::new(receiver)),
            Err(e) => Err(e),
        }
    }

    /// Starts a listener on the route from `from` into `node`.
    pub fn listen_from(&self, node: &str, from: &str) -> (r: Result<Listener, ResolutionError>)
        ensures
            resolved_two(self@, node@, from@, route_between(self@, from@, node@), listener_route(r)),
            r matches Ok(l) ==> fresh(l@, l@.node) && consistent(l@),
    {
        match self.build_receiver_from(node, from) {
            Ok(receiver) => Ok(Listener::new(receiver)),
            Err(e) => Err(e),
        }
    }
}

} // verus!
