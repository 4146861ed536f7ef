//! Reply sinks for the ask protocol.
//!
//! An asking caller allocates a fresh reply identifier and waits on it;
//! the envelope carries a [`SenderRef`] naming that identifier. When the
//! target actor handles the message, the lifecycle loop resolves the sink
//! by turning it into a [`Reply`], which the host routes back to the
//! waiting caller. A `SenderRef` is consumed by responding, so exactly one
//! reply can ever be produced from it.

use vstd::prelude::*;

verus! {

/// The sending half of a one-shot reply channel, named by the reply
/// identifier its asker waits on.
pub struct SenderRef {
    reply_id: u64,
}

impl SenderRef {
    /// The identifier of the reply this sink resolves.
    pub closed spec fn reply_id_spec(&self) -> u64 {
        self.reply_id
    }

    /// A sink that resolves the reply with the given identifier.
    pub fn new(reply_id: u64) -> (r: SenderRef)
        ensures
            r.reply_id_spec() == reply_id,
    {
        SenderRef { reply_id }
    }

    /// The identifier this sink will resolve.
    pub fn reply_id(&self) -> (r: u64)
        ensures
            r == self.reply_id_spec(),
    {
        self.reply_id
    }

    /// Resolve the reply with `result`. Consumes the sink: a second
    /// response through the same sink cannot be written.
    pub fn respond<M>(self, result: M) -> (r: Reply<M>)
        ensures
            r.reply_id == self.reply_id_spec(),
            r.value == result,
    {
        Reply { reply_id: self.reply_id, value: result }
    }
}

/// A resolved reply on its way back to the asker that waits under
/// `reply_id`.
pub struct Reply<M> {
    /// Which pending ask this answers.
    pub reply_id: u64,
    /// The handler's result.
    pub value: M,
}

/// The explicit failure an asking caller observes instead of waiting
/// forever.
#[derive(Debug, Clone, Copy, PartialEq, Eq, Structural)]
pub enum AskError {
    /// The target's mailbox was closed or full, so the message was never
    /// queued and no reply will come.
    Rejected,
}

} // verus!
