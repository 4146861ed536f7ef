//! Per-actor mailboxes.
//!
//! A [`Mailbox`] is the single-consumer queue of envelopes behind one
//! actor. Producers offer envelopes — back-pressure or rejection applies
//! when a bounded mailbox is full, and a closed mailbox accepts nothing —
//! and the actor's lifecycle loop removes them one at a time, in arrival
//! order. Two ghost logs, the accepted arrivals and the removals, record
//! that history; the well-formedness invariant ties them to the queue, and
//! [`lemma_fifo_per_producer`] derives the per-producer delivery order
//! from it.

use vstd::prelude::*;

use crate::message::{Envelope, EnvelopeView, Message};

verus! {

/// Capacity policy of a mailbox.
#[derive(Debug, Clone, Copy, PartialEq, Eq, Structural)]
pub enum MailboxConfig {
    /// At most this many envelopes queue; producers that would exceed it
    /// are turned away and may suspend or drop, their choice.
    Bounded(usize),
    /// Producers are never turned away for lack of room.
    Unbounded,
}

impl Default for MailboxConfig {
    /// The default policy is unbounded.
    fn default() -> (r: MailboxConfig)
        ensures
            r is Unbounded,
    {
        MailboxConfig::Unbounded
    }
}

/// Whether a queue holding `len` envelopes accepts one more under `c`.
pub open spec fn accepts(c: MailboxConfig, len: nat) -> bool {
    match c {
        MailboxConfig::Bounded(cap) => len < cap,
        MailboxConfig::Unbounded => true,
    }
}

/// What became of an offered envelope.
#[derive(Debug, Clone, Copy, PartialEq, Eq, Structural)]
pub enum OfferOutcome {
    /// Queued; it will be delivered unless the actor stops first.
    Accepted,
    /// A bounded mailbox is at capacity; nothing was queued.
    Full,
    /// The mailbox no longer accepts envelopes; nothing was queued.
    Closed,
}

/// What the consumer finds when it polls.
pub enum RecvPoll<M: Message> {
    /// The oldest queued envelope.
    Ready(Envelope<M>),
    /// Nothing queued now, but producers remain: an asynchronous consumer
    /// would suspend here.
    Idle,
    /// Nothing queued and the mailbox is closed: end of stream.
    Done,
}

/// A single-consumer, multi-producer queue of envelopes for one actor.
pub struct Mailbox<M: Message> {
    queue: Vec<Envelope<M>>,
    config: MailboxConfig,
    closed: bool,
    arrivals: Ghost<Seq<EnvelopeView<M>>>,
    removed: Ghost<Seq<EnvelopeView<M>>>,
}

impl<M: Message> Mailbox<M> {
    /// The envelopes waiting in the queue, oldest first.
    pub closed spec fn pending(&self) -> Seq<EnvelopeView<M>> {
        self.queue@.map_values(|e: Envelope<M>| e@)
    }

    /// Every envelope ever accepted, in arrival order.
    pub closed spec fn arrivals(&self) -> Seq<EnvelopeView<M>> {
        self.arrivals@
    }

    /// Every envelope the consumer has removed, in removal order.
    pub closed spec fn removed(&self) -> Seq<EnvelopeView<M>> {
        self.removed@
    }

    /// The capacity policy this mailbox was made with.
    pub closed spec fn config_spec(&self) -> MailboxConfig {
        self.config
    }

    /// Whether the mailbox has been closed to producers.
    pub closed spec fn is_closed(&self) -> bool {
        self.closed
    }

    /// The queue is exactly the accepted arrivals not yet removed, in
    /// order: removals happen oldest-first, so the removal log is a
    /// prefix of the arrival log.
    pub closed spec fn wf(&self) -> bool {
        self.arrivals@ == self.removed@ + self.pending()
    }

    /// An empty, open mailbox with the given policy.
    pub fn new(config: MailboxConfig) -> (r: Mailbox<M>)
        ensures
            r.wf(),
            r.pending() == Seq::<EnvelopeView<M>>::empty(),
            r.arrivals() == Seq::<EnvelopeView<M>>::empty(),
            r.removed() == Seq::<EnvelopeView<M>>::empty(),
            r.config_spec() == config,
            !r.is_closed(),
    {
        let r = Mailbox {
            queue: Vec::new(),
            config,
            closed: false,
            arrivals: Ghost(Seq::empty()),
            removed: Ghost(Seq::empty()),
        };
        proof {
            assert(r.pending() =~= Seq::<EnvelopeView<M>>::empty());
            assert(r.arrivals@ =~= r.removed@ + r.pending());
        }
        r
    }

    /// Offer one envelope. It is accepted and queued exactly when the
    /// mailbox is open and not full; a full or closed mailbox leaves the
    /// queue and the logs unchanged and tells the producer why.
    pub fn offer(&mut self, env: Envelope<M>) -> (r: OfferOutcome)
        ensures
            old(self).wf() ==> final(self).wf(),
            final(self).config_spec() == old(self).config_spec(),
            final(self).is_closed() == old(self).is_closed(),
            final(self).removed() == old(self).removed(),
            old(self).is_closed() ==> r == OfferOutcome::Closed,
            !old(self).is_closed() && !accepts(old(self).config_spec(), old(self).pending().len())
                ==> r == OfferOutcome::Full,
            !old(self).is_closed() && accepts(old(self).config_spec(), old(self).pending().len())
                ==> r == OfferOutcome::Accepted,
            r == OfferOutcome::Accepted ==> final(self).pending() == old(self).pending().push(env@)
                && final(self).arrivals() == old(self).arrivals().push(env@),
            r != OfferOutcome::Accepted ==> final(self).pending() == old(self).pending()
                && final(self).arrivals() == old(self).arrivals(),
    {
        if self.closed {
            return OfferOutcome::Closed;
        }
        let roomy: bool = match self.config {
            MailboxConfig::Bounded(cap) => self.queue.len() < cap,
            MailboxConfig::Unbounded => true,
        };
        if !roomy {
            return OfferOutcome::Full;
        }
        proof {
            assert(old(self).pending().push(env@) =~= old(self).queue@.push(env).map_values(
                |e: Envelope<M>| e@,
            ));
        }
        self.arrivals = Ghost(self.arrivals@.push(env@));
        self.queue.push(env);
        proof {
            if old(self).wf() {
                assert(self.arrivals@ =~= self.removed@ + self.pending());
            }
        }
        OfferOutcome::Accepted
    }

    /// Poll for the next envelope: the oldest queued one; or nothing yet,
    /// with producers still around; or the end of the stream once the
    /// mailbox is closed and drained.
    pub fn recv(&mut self) -> (r: RecvPoll<M>)
        ensures
            old(self).wf() ==> final(self).wf(),
            final(self).config_spec() == old(self).config_spec(),
            final(self).is_closed() == old(self).is_closed(),
            final(self).arrivals() == old(self).arrivals(),
            old(self).pending().len() > 0 ==> (r matches RecvPoll::Ready(env)
                && env@ == old(self).pending()[0]
                && final(self).pending() == old(self).pending().drop_first()
                && final(self).removed() == old(self).removed().push(old(self).pending()[0])),
            old(self).pending().len() == 0 ==> final(self).pending() == old(self).pending()
                && final(self).removed() == old(self).removed(),
            old(self).pending().len() == 0 && old(self).is_closed() ==> r is Done,
            old(self).pending().len() == 0 && !old(self).is_closed() ==> r is Idle,
    {
        if self.queue.len() > 0 {
            let env = self.queue.remove(0);
            self.removed = Ghost(self.removed@.push(env@));
            proof {
                assert(self.pending() =~= old(self).pending().drop_first());
                if old(self).wf() {
                    assert(self.arrivals@ =~= self.removed@ + self.pending());
                }
            }
            RecvPoll::Ready(env)
        } else if self.closed {
            RecvPoll::Done
        } else {
            RecvPoll::Idle
        }
    }

    /// Close the mailbox: producers are turned away from now on. The
    /// consumer may still drain what is queued. Idempotent.
    pub fn close(&mut self)
        ensures
            final(self).is_closed(),
            final(self).wf() == old(self).wf(),
            final(self).config_spec() == old(self).config_spec(),
            final(self).pending() == old(self).pending(),
            final(self).arrivals() == old(self).arrivals(),
            final(self).removed() == old(self).removed(),
    {
        self.closed = true;
    }

    /// How many envelopes wait in the queue.
    pub fn len(&self) -> (r: usize)
        ensures
            r == self.pending().len(),
    {
        self.queue.len()
    }
}

/// The messages producer `p` contributed to `s`, in order.
pub open spec fn of_producer<M>(s: Seq<EnvelopeView<M>>, p: u64) -> Seq<M>
    decreases s.len(),
{
    if s.len() == 0 {
        Seq::empty()
    } else {
        of_producer(s.drop_last(), p) + (if s.last().producer == p {
            seq![s.last().message]
        } else {
            Seq::<M>::empty()
        })
    }
}

/// `a` is `b`'s first `a.len()` elements.
pub open spec fn is_prefix_of<T>(a: Seq<T>, b: Seq<T>) -> bool {
    a.len() <= b.len() && a == b.take(a.len() as int)
}

/// Taking a prefix keeps each producer's projection a prefix.
proof fn lemma_of_producer_prefix<M>(a: Seq<EnvelopeView<M>>, b: Seq<EnvelopeView<M>>, p: u64)
    requires
        is_prefix_of(a, b),
    ensures
        is_prefix_of(of_producer(a, p), of_producer(b, p)),
    decreases b.len(),
{
    if a.len() == b.len() {
        assert(a =~= b);
        assert(of_producer(b, p).take(of_producer(b, p).len() as int) =~= of_producer(b, p));
    } else {
        let b2 = b.drop_last();
        assert(is_prefix_of(a, b2)) by {
            assert(b2.take(a.len() as int) =~= b.take(a.len() as int));
        };
        lemma_of_producer_prefix(a, b2, p);
        let oa = of_producer(a, p);
        let ob2 = of_producer(b2, p);
        let ob = of_producer(b, p);
        assert(is_prefix_of(ob2, ob)) by {
            assert(ob.take(ob2.len() as int) =~= ob2);
        };
        assert(oa =~= ob.take(oa.len() as int)) by {
            assert(oa == ob2.take(oa.len() as int));
            assert(ob2 == ob.take(ob2.len() as int));
        };
    }
}

/// FIFO per producer: of the messages one producer sent to this mailbox,
/// the consumer has removed a prefix, in the order that producer sent
/// them. Holds of every well-formed mailbox, under any interleaving of
/// producers.
pub proof fn lemma_fifo_per_producer<M: Message>(m: &Mailbox<M>, p: u64)
    requires
        m.wf(),
    ensures
        is_prefix_of(of_producer(m.removed(), p), of_producer(m.arrivals(), p)),
{
    assert(is_prefix_of(m.removed(), m.arrivals())) by {
        assert(m.arrivals().take(m.removed().len() as int) =~= m.removed());
    };
    lemma_of_producer_prefix(m.removed(), m.arrivals(), p);
}


/// What well-formedness means for the logs: the arrivals are exactly the
/// removals followed by what still waits.
pub proof fn lemma_mailbox_log<M: Message>(m: &Mailbox<M>)
    requires
        m.wf(),
    ensures
        m.arrivals() == m.removed() + m.pending(),
{
}

} // verus!
