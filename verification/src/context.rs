//! The execution context an actor sees while it runs.
//!
//! A [`Context`] is owned by the one lifecycle loop that drives its actor.
//! It exposes the actor's own address, an optional reply sink a host may
//! install for the message being dispatched (`None` for fire-and-forget
//! sends), and the cooperative stop signal.

use vstd::prelude::*;

use crate::actor_ref::{Reply, SenderRef};
use crate::pid::{Pid, PidView};

verus! {

/// Where an actor stands in its life. The lifecycle loop moves forward
/// through these states and never back.
#[derive(Debug, Clone, Copy, PartialEq, Eq, Structural)]
pub enum ActorState {
    /// The actor exists; its start hook has not run. Messages may already
    /// be queued but none is dispatched.
    Started,
    /// The dispatch cycle: drain a queued envelope, or honor a pending
    /// stop request when the queue is empty.
    Running,
    /// The stop was honored; the stop hook has not run yet. New sends are
    /// rejected.
    Stopping,
    /// Terminal: the stop hook ran exactly once; nothing more happens.
    Stopped,
}

/// The context handed to an actor's hooks and handlers.
pub struct Context {
    myself: Pid,
    sender: Option<SenderRef>,
    stop_requested: bool,
}

impl Context {
    /// This actor's own identifier.
    pub closed spec fn myself_view(&self) -> PidView {
        self.myself@
    }

    /// The reply identifier of the message being dispatched, if its
    /// sender asked for an answer.
    pub closed spec fn sender_id(&self) -> Option<u64> {
        match self.sender {
            Some(s) => Some(s.reply_id_spec()),
            None => None,
        }
    }

    /// Whether a cooperative stop has been requested.
    pub closed spec fn stop_requested(&self) -> bool {
        self.stop_requested
    }

    /// A fresh context for the actor addressed by `myself`: no message in
    /// flight, no stop requested.
    pub fn new(myself: Pid) -> (r: Context)
        ensures
            r.myself_view() == myself@,
            r.sender_id() is None,
            !r.stop_requested(),
    {
        Context { myself, sender: None, stop_requested: false }
    }

    /// This actor's own address, for self-sends or for handing out.
    pub fn myself(&self) -> (r: &Pid)
        ensures
            r@ == self.myself_view(),
    {
        &self.myself
    }

    /// Install the reply sink of a message about to be dispatched, for a
    /// host that routes replies through the context instead of through
    /// the lifecycle loop's own resolution.
    pub fn set_sender(&mut self, sender: Option<SenderRef>)
        ensures
            final(self).sender_id() == match sender {
                Some(s) => Some(s.reply_id_spec()),
                None => None::<u64>,
            },
            final(self).myself_view() == old(self).myself_view(),
            final(self).stop_requested() == old(self).stop_requested(),
    {
        self.sender = sender;
    }

    /// Whether the message being dispatched came from an asking caller.
    pub fn sender(&self) -> (r: Option<&SenderRef>)
        ensures
            match r {
                Some(s) => self.sender_id() == Some(s.reply_id_spec()),
                None => self.sender_id() is None,
            },
    {
        self.sender.as_ref()
    }

    /// Resolve the current message's reply sink with `value`: the reply to
    /// route back, or `None` — a logged no-op, never a panic — when the
    /// message was sent fire-and-forget or was already answered.
    pub fn response<M>(&mut self, value: M) -> (r: Option<Reply<M>>)
        ensures
            match old(self).sender_id() {
                Some(id) => (r matches Some(rep) && rep.reply_id == id && rep.value == value),
                None => r is None,
            },
            final(self).sender_id() is None,
            final(self).myself_view() == old(self).myself_view(),
            final(self).stop_requested() == old(self).stop_requested(),
    {
        match self.sender.take() {
            Some(s) => Some(s.respond(value)),
            None => None,
        }
    }

    /// Whether a cooperative stop has been requested through this
    /// context.
    pub fn is_stop_requested(&self) -> (r: bool)
        ensures
            r == self.stop_requested(),
    {
        self.stop_requested
    }

    /// Request a cooperative stop: the lifecycle loop finishes the current
    /// dispatch, drains what is already queued, then stops. Idempotent — a
    /// second call changes nothing.
    pub fn stop(&mut self)
        ensures
            final(self).stop_requested(),
            final(self).myself_view() == old(self).myself_view(),
            final(self).sender_id() == old(self).sender_id(),
    {
        self.stop_requested = true;
    }
}

} // verus!
