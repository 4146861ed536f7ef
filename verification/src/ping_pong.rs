//! The ping-pong pair: two example actors exercising the runtime.
//!
//! A [`PingActor`] counts the pings it handles and answers each with a
//! [`Pong`] carrying the fresh count — asking it `Ping` repeatedly yields
//! the counts one, two, three, and so on. A [`PongActor`] counts the
//! pongs it receives and remembers the address of its ping partner.

use vstd::prelude::*;

use crate::actor::{Actor, Handler};
use crate::context::Context;
use crate::message::Message;
use crate::pid::Pid;

verus! {

/// A ping. Handling one answers with the [`Pong`] that carries the
/// counter after its increment.
pub struct Ping;

impl Message for Ping {
    type Result = Pong;
}

/// A marker that starts a fresh sampling window: the counter begins
/// again at zero.
pub struct Sample1Sec;

impl Message for Sample1Sec {
    type Result = ();
}

/// A pong: the responder's count at the moment of answering, and a
/// label.
pub struct Pong(pub usize, pub String);

impl Message for Pong {
    type Result = ();
}

/// Counts the pings it has handled.
pub struct PingActor {
    /// Pings handled since the last sampling marker.
    pub counter: usize,
}

impl PingActor {
    /// One ping: the counter moves up by one (staying put at the numeric
    /// limit), and the answer carries the fresh count.
    pub fn handle_ping(&mut self, msg: Ping) -> (r: Pong)
        ensures
            old(self).counter < usize::MAX ==> final(self).counter == old(self).counter + 1,
            old(self).counter == usize::MAX ==> final(self).counter == usize::MAX,
            r.0 == final(self).counter,
            r.1@ == "Pong"@,
    {
        if self.counter < usize::MAX {
            self.counter = self.counter + 1;
        }
        Pong(self.counter, String::from_str("Pong"))
    }

    /// A sampling marker: the counter starts over.
    pub fn handle_sample(&mut self, msg: Sample1Sec)
        ensures
            final(self).counter == 0,
    {
        self.counter = 0;
    }
}

impl Actor for PingActor {

}

impl Handler<Ping> for PingActor {
    fn handle(&mut self, msg: Ping, ctx: &mut Context) -> Pong {
        self.handle_ping(msg)
    }
}

impl Handler<Sample1Sec> for PingActor {
    fn handle(&mut self, msg: Sample1Sec, ctx: &mut Context) {
        self.handle_sample(msg)
    }
}

/// Counts the pongs it receives from its ping partner.
pub struct PongActor {
    /// The name this actor took when it started: its registered
    /// identifier.
    pub name: String,
    /// Pongs received.
    pub counter: usize,
    /// The address of the ping partner.
    pub ping_actor: Pid,
}

impl PongActor {
    /// One pong: the counter moves up by one (staying put at the numeric
    /// limit).
    pub fn handle_pong(&mut self, msg: Pong)
        ensures
            old(self).counter < usize::MAX ==> final(self).counter == old(self).counter + 1,
            old(self).counter == usize::MAX ==> final(self).counter == usize::MAX,
            final(self).name == old(self).name,
            final(self).ping_actor == old(self).ping_actor,
    {
        if self.counter < usize::MAX {
            self.counter = self.counter + 1;
        }
    }
}

impl Actor for PongActor {
    /// On start, take the registered identifier as this actor's name.
    fn started(&mut self, ctx: &mut Context) {
        self.name = ctx.myself().id.clone();
    }
}

impl Handler<Pong> for PongActor {
    fn handle(&mut self, msg: Pong, ctx: &mut Context) {
        self.handle_pong(msg)
    }
}

} // verus!
