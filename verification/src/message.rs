//! Messages and envelopes.
//!
//! A [`Message`] declares the type of result its handling produces. An
//! [`Envelope`] carries one message together with the optional reply sink
//! of an asking caller and the identity of the producer that sent it; the
//! mailbox holds envelopes of one actor's message type, and the lifecycle
//! loop consumes each envelope exactly once — consumption takes the
//! envelope by value, so a second dispatch of the same envelope cannot be
//! written.

use vstd::prelude::*;

use crate::actor_ref::SenderRef;

verus! {

/// A value that can be sent to an actor. `Result` is what handling it
/// produces; the unit type when the message brings no answer.
pub trait Message: Sized {
    /// What the handler returns for this message.
    type Result;
}

/// The carrier of one message on its way through a mailbox.
pub struct Envelope<M: Message> {
    message: M,
    sender: Option<SenderRef>,
    producer: u64,
}

/// The mathematical value of an [`Envelope`]: the message, the reply
/// identifier when an asker waits, and the producer's tag.
pub struct EnvelopeView<M> {
    pub message: M,
    pub reply_id: Option<u64>,
    pub producer: u64,
}

impl<M: Message> View for Envelope<M> {
    type V = EnvelopeView<M>;

    closed spec fn view(&self) -> EnvelopeView<M> {
        EnvelopeView {
            message: self.message,
            reply_id: match self.sender {
                Some(s) => Some(s.reply_id_spec()),
                None => None,
            },
            producer: self.producer,
        }
    }
}

impl<M: Message> Envelope<M> {
    /// Wrap a message, with the reply sink of an asking caller or `None`
    /// for fire-and-forget. The producer tag starts at zero.
    pub fn new(message: M, sender: Option<SenderRef>) -> (r: Envelope<M>)
        ensures
            r@.message == message,
            r@.reply_id == match sender {
                Some(s) => Some(s.reply_id_spec()),
                None => None::<u64>,
            },
            r@.producer == 0,
    {
        Envelope { message, sender, producer: 0 }
    }

    /// The same envelope tagged with the sending producer, for delivery
    /// ordering per producer.
    pub fn from_producer(self, producer: u64) -> (r: Envelope<M>)
        ensures
            r@.message == self@.message,
            r@.reply_id == self@.reply_id,
            r@.producer == producer,
    {
        Envelope { producer, ..self }
    }

    /// Take the envelope apart: the message and, when an asker waits, the
    /// reply sink. Consumes the envelope, so it happens at most once.
    pub fn open(self) -> (r: (M, Option<SenderRef>))
        ensures
            r.0 == self@.message,
            self@.reply_id matches Some(id) ==> (r.1 matches Some(s) && s.reply_id_spec() == id),
            self@.reply_id is None ==> r.1 is None,
    {
        (self.message, self.sender)
    }
}

/// A handled message's result, wrapped so that replies can carry any
/// message type.
pub struct MessageResult<M: Message>(pub M);

} // verus!
