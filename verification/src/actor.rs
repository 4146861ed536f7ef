//! Actors and their message handlers.
//!
//! An [`Actor`] is a unit of state that processes one message at a time.
//! Its lifecycle hooks run at the edges of its life: `started` before any
//! dispatch, `stopped` exactly once when the loop winds down. A
//! [`Handler`] implementation ties one message type to the actor that
//! processes it and produces the message's declared result.

use vstd::prelude::*;

use crate::context::Context;
use crate::message::Message;

verus! {

/// A unit of isolated state driven by one lifecycle loop.
pub trait Actor: Sized {
    /// Called once, after the actor is created and before any message is
    /// dispatched.
    fn started(&mut self, ctx: &mut Context) {
    }

    /// Called exactly once when the lifecycle loop winds down, after the
    /// last dispatch.
    fn stopped(&mut self, ctx: &mut Context) {
    }
}

/// Processes messages of type `M`, producing `M::Result`.
pub trait Handler<M: Message>: Actor {
    /// Handle one message. The lifecycle loop guarantees that no two
    /// invocations for the same actor instance ever overlap: it owns the
    /// actor exclusively and dispatches one envelope at a time.
    fn handle(&mut self, msg: M, ctx: &mut Context) -> M::Result;
}

} // verus!
