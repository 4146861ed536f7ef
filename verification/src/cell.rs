//! The actor lifecycle loop's state machine.
//!
//! An [`ActorCell`] owns one actor, its context and its mailbox, and is
//! the only place the actor's state is ever touched — which is what makes
//! dispatches exclusive: no two handler invocations for one actor can
//! overlap, because every dispatch happens inside [`ActorCell::step`],
//! which holds the cell by exclusive borrow.
//!
//! The life of a cell: the start hook runs before any dispatch; the
//! dispatch cycle drains the mailbox one envelope at a time, preferring a
//! queued envelope over a pending stop request (drain-before-stop); once
//! the queue is empty and a stop was requested — or the mailbox reports
//! end of stream — the cell closes its mailbox, so later sends are turned
//! away, and runs the stop hook exactly once.

use vstd::prelude::*;

use crate::actor::{Actor, Handler};
use crate::actor_ref::Reply;
use crate::context::{ActorState, Context};
use crate::mailbox::{Mailbox, MailboxConfig, OfferOutcome, RecvPoll};
use crate::message::{Envelope, EnvelopeView, Message};

verus! {

/// What one turn of the lifecycle loop did.
pub enum StepOutcome<R> {
    /// Nothing to do: the queue is empty, producers remain, no stop is
    /// pending. An asynchronous driver suspends here until woken.
    Idle,
    /// The start hook ran; dispatching may begin.
    Started,
    /// One envelope was dispatched. When its sender asked for an answer,
    /// the resolved reply is here for the driver to route back.
    Dispatched(Option<Reply<R>>),
    /// The stop request or the closed mailbox was honored: the mailbox is
    /// closed to producers and the stop hook runs on the next turn.
    Stopping,
    /// The loop is finished; the stop hook has run.
    Stopped,
}

/// How far from the end of its life a state is; each turn of the loop
/// either dispatches an envelope or moves down this measure.
pub open spec fn state_rank(s: ActorState) -> int {
    match s {
        ActorState::Started => 3,
        ActorState::Running => 2,
        ActorState::Stopping => 1,
        ActorState::Stopped => 0,
    }
}

/// The reply identifiers of the asked envelopes in `s`, in order.
pub open spec fn ask_ids<M>(s: Seq<EnvelopeView<M>>) -> Seq<u64>
    decreases s.len(),
{
    if s.len() == 0 {
        Seq::empty()
    } else {
        ask_ids(s.drop_last()) + (match s.last().reply_id {
            Some(id) => seq![id],
            None => Seq::<u64>::empty(),
        })
    }
}

/// Drives one actor's life: start hook, dispatch cycle, stop hook.
pub struct ActorCell<A, M> where A: Actor + Handler<M>, M: Message {
    actor: A,
    ctx: Context,
    mailbox: Mailbox<M>,
    state: ActorState,
    stop_latched: bool,
}

impl<A, M> ActorCell<A, M> where A: Actor + Handler<M>, M: Message {
    /// Where the actor stands in its life.
    pub closed spec fn lifecycle(&self) -> ActorState {
        self.state
    }

    /// The envelopes queued and not yet dispatched, oldest first.
    pub closed spec fn pending(&self) -> Seq<EnvelopeView<M>> {
        self.mailbox.pending()
    }

    /// Every envelope the mailbox ever accepted, in arrival order.
    pub closed spec fn accepted(&self) -> Seq<EnvelopeView<M>> {
        self.mailbox.arrivals()
    }

    /// Every envelope dispatched so far, in dispatch order.
    pub closed spec fn dispatched(&self) -> Seq<EnvelopeView<M>> {
        self.mailbox.removed()
    }

    /// Whether the loop has observed a stop request. Never unset.
    pub closed spec fn stop_requested(&self) -> bool {
        self.stop_latched
    }

    /// Whether the mailbox has been closed to producers.
    pub closed spec fn mailbox_closed(&self) -> bool {
        self.mailbox.is_closed()
    }

    /// The mailbox's capacity policy.
    pub closed spec fn config_spec(&self) -> MailboxConfig {
        self.mailbox.config_spec()
    }

    /// The cell's invariant: the mailbox's logs tie up, and once the stop
    /// was honored the queue is drained and the mailbox closed, so
    /// nothing queued is ever discarded silently — a message is either
    /// dispatched or turned away at the door.
    pub closed spec fn wf(&self) -> bool {
        &&& self.mailbox.wf()
        &&& (self.state is Stopping || self.state is Stopped) ==> (self.mailbox.is_closed()
            && self.mailbox.pending().len() == 0)
    }

    /// A fresh cell around an actor, its context and its mailbox. The
    /// start hook has not run; dispatching begins after the first step.
    pub fn new(ctx: Context, actor: A, mailbox: Mailbox<M>) -> (r: ActorCell<A, M>)
        requires
            mailbox.wf(),
        ensures
            r.wf(),
            r.lifecycle() is Started,
            r.pending() == mailbox.pending(),
            r.accepted() == mailbox.arrivals(),
            r.dispatched() == mailbox.removed(),
            !r.stop_requested(),
            r.mailbox_closed() == mailbox.is_closed(),
            r.config_spec() == mailbox.config_spec(),
    {
        ActorCell { actor, ctx, mailbox, state: ActorState::Started, stop_latched: false }
    }

    /// The actor this cell drives.
    pub closed spec fn actor_spec(&self) -> A {
        self.actor
    }

    /// Read the actor's state. Only this cell ever holds the actor, so a
    /// host may observe it between turns of the loop.
    pub fn actor_ref(&self) -> (r: &A)
        ensures
            r == self.actor_spec(),
    {
        &self.actor
    }

    /// The current lifecycle state.
    pub fn lifecycle_state(&self) -> (r: ActorState)
        ensures
            r == self.lifecycle(),
    {
        self.state
    }

    /// How many envelopes wait in the mailbox.
    pub fn queue_len(&self) -> (r: usize)
        ensures
            r == self.pending().len(),
    {
        self.mailbox.len()
    }

    /// Deliver the stop signal to the loop, as `Context::stop` does from
    /// inside a handler: the loop drains what is queued, then stops.
    /// Idempotent.
    pub fn signal_stop(&mut self)
        ensures
            final(self).stop_requested(),
            final(self).wf() == old(self).wf(),
            final(self).lifecycle() == old(self).lifecycle(),
            final(self).pending() == old(self).pending(),
            final(self).accepted() == old(self).accepted(),
            final(self).dispatched() == old(self).dispatched(),
            final(self).mailbox_closed() == old(self).mailbox_closed(),
            final(self).config_spec() == old(self).config_spec(),
    {
        self.stop_latched = true;
    }

    /// A producer offers one envelope. Queued exactly when the actor has
    /// not begun stopping and the mailbox has room; a stopped actor's
    /// mailbox is closed, so the offer is turned away — dropped with a
    /// report, never a panic.
    pub fn offer(&mut self, env: Envelope<M>) -> (r: OfferOutcome)
        ensures
            old(self).wf() ==> final(self).wf(),
            final(self).lifecycle() == old(self).lifecycle(),
            final(self).stop_requested() == old(self).stop_requested(),
            final(self).dispatched() == old(self).dispatched(),
            final(self).mailbox_closed() == old(self).mailbox_closed(),
            final(self).config_spec() == old(self).config_spec(),
            old(self).mailbox_closed() ==> r == OfferOutcome::Closed,
            old(self).wf() && (old(self).lifecycle() is Stopping || old(self).lifecycle()
                is Stopped) ==> r == OfferOutcome::Closed,
            !old(self).mailbox_closed() && !crate::mailbox::accepts(
                old(self).config_spec(),
                old(self).pending().len(),
            ) ==> r == OfferOutcome::Full,
            !old(self).mailbox_closed() && crate::mailbox::accepts(
                old(self).config_spec(),
                old(self).pending().len(),
            ) ==> r == OfferOutcome::Accepted,
            r == OfferOutcome::Accepted ==> final(self).pending() == old(self).pending().push(env@)
                && final(self).accepted() == old(self).accepted().push(env@),
            r != OfferOutcome::Accepted ==> final(self).pending() == old(self).pending()
                && final(self).accepted() == old(self).accepted(),
    {
        self.mailbox.offer(env)
    }

    /// Fire-and-forget send from producer `producer`: wrap the message in
    /// an envelope with no reply sink and offer it. Delivery is
    /// best-effort — a full or closed mailbox drops the message with a
    /// report, never a panic.
    pub fn send(&mut self, msg: M, producer: u64) -> (r: OfferOutcome)
        ensures
            old(self).wf() ==> final(self).wf(),
            final(self).lifecycle() == old(self).lifecycle(),
            final(self).stop_requested() == old(self).stop_requested(),
            final(self).dispatched() == old(self).dispatched(),
            final(self).mailbox_closed() == old(self).mailbox_closed(),
            final(self).config_spec() == old(self).config_spec(),
            old(self).mailbox_closed() ==> r == OfferOutcome::Closed,
            !old(self).mailbox_closed() && !crate::mailbox::accepts(
                old(self).config_spec(),
                old(self).pending().len(),
            ) ==> r == OfferOutcome::Full,
            !old(self).mailbox_closed() && crate::mailbox::accepts(
                old(self).config_spec(),
                old(self).pending().len(),
            ) ==> r == OfferOutcome::Accepted,
            r == OfferOutcome::Accepted ==> final(self).pending() == old(self).pending().push(
                EnvelopeView { message: msg, reply_id: None, producer },
            ) && final(self).accepted() == old(self).accepted().push(
                EnvelopeView { message: msg, reply_id: None, producer },
            ),
            r != OfferOutcome::Accepted ==> final(self).pending() == old(self).pending()
                && final(self).accepted() == old(self).accepted(),
    {
        let env = Envelope::new(msg, None).from_producer(producer);
        self.offer(env)
    }

    /// The sending half of an ask from producer `producer`: wrap the
    /// message around a reply sink for `reply_id` and offer it. Queued
    /// exactly when the mailbox takes it; otherwise the asker learns at
    /// once that no reply will come, so an ask never waits forever on a
    /// stopped or full target.
    pub fn request(&mut self, msg: M, reply_id: u64, producer: u64) -> (r: Result<
        (),
        crate::actor_ref::AskError,
    >)
        ensures
            old(self).wf() ==> final(self).wf(),
            final(self).lifecycle() == old(self).lifecycle(),
            final(self).stop_requested() == old(self).stop_requested(),
            final(self).dispatched() == old(self).dispatched(),
            final(self).mailbox_closed() == old(self).mailbox_closed(),
            final(self).config_spec() == old(self).config_spec(),
            r is Ok <==> !old(self).mailbox_closed() && crate::mailbox::accepts(
                old(self).config_spec(),
                old(self).pending().len(),
            ),
            r is Err ==> r == Err::<(), crate::actor_ref::AskError>(
                crate::actor_ref::AskError::Rejected,
            ),
            r is Ok ==> final(self).pending() == old(self).pending().push(
                EnvelopeView { message: msg, reply_id: Some(reply_id), producer },
            ) && final(self).accepted() == old(self).accepted().push(
                EnvelopeView { message: msg, reply_id: Some(reply_id), producer },
            ),
            r is Err ==> final(self).pending() == old(self).pending() && final(self).accepted()
                == old(self).accepted(),
    {
        let sink = crate::actor_ref::SenderRef::new(reply_id);
        let env = Envelope::new(msg, Some(sink)).from_producer(producer);
        match self.offer(env) {
            OfferOutcome::Accepted => Ok(()),
            OfferOutcome::Full => Err(crate::actor_ref::AskError::Rejected),
            OfferOutcome::Closed => Err(crate::actor_ref::AskError::Rejected),
        }
    }

    /// One turn of the lifecycle loop. Runs the start hook first; then
    /// dispatches the oldest queued envelope, resolving its reply sink
    /// with the handler's result exactly when the sender asked; honors a
    /// stop request or the end of the producer stream only when the queue
    /// is empty; and finally runs the stop hook, exactly once.
    pub fn step(&mut self) -> (r: StepOutcome<M::Result>)
        requires
            old(self).wf(),
        ensures
            final(self).wf(),
            final(self).accepted() == old(self).accepted(),
            final(self).config_spec() == old(self).config_spec(),
            old(self).stop_requested() ==> final(self).stop_requested(),
            old(self).mailbox_closed() ==> final(self).mailbox_closed(),
            old(self).lifecycle() is Started ==> (final(self).lifecycle() is Running
                && final(self).dispatched() == old(self).dispatched()
                && final(self).pending() == old(self).pending()
                && final(self).mailbox_closed() == old(self).mailbox_closed()
                && r is Started),
            old(self).lifecycle() is Running && old(self).pending().len() > 0 ==> (final(self).lifecycle() is Running
                && final(self).dispatched() == old(self).dispatched().push(old(self).pending()[0])
                && final(self).pending() == old(self).pending().drop_first()
                && final(self).mailbox_closed() == old(self).mailbox_closed()
                && (r matches StepOutcome::Dispatched(rep) && (match old(self).pending()[0].reply_id {
                Some(id) => rep matches Some(rp) && rp.reply_id == id,
                None => rep is None,
            }))),
            old(self).lifecycle() is Running && old(self).pending().len() == 0 && (old(self).stop_requested() || old(self).mailbox_closed()) ==> (final(self).lifecycle()
                is Stopping && final(self).dispatched() == old(self).dispatched()
                && final(self).pending() == old(self).pending() && final(self).mailbox_closed()
                && r is Stopping),
            old(self).lifecycle() is Running && old(self).pending().len() == 0 && !old(self).stop_requested() && !old(self).mailbox_closed() ==> (final(self).lifecycle()
                is Running && final(self).dispatched() == old(self).dispatched()
                && final(self).pending() == old(self).pending()
                && final(self).mailbox_closed() == old(self).mailbox_closed()
                && r is Idle),
            old(self).lifecycle() is Stopping ==> (final(self).lifecycle() is Stopped
                && final(self).dispatched() == old(self).dispatched()
                && final(self).pending() == old(self).pending()
                && r is Stopped),
            old(self).lifecycle() is Stopped ==> (final(self).lifecycle() is Stopped
                && final(self).dispatched() == old(self).dispatched()
                && final(self).pending() == old(self).pending()
                && r is Stopped),
    {
        match self.state {
            ActorState::Started => {
                self.actor.started(&mut self.ctx);
                if self.ctx.is_stop_requested() {
                    self.stop_latched = true;
                }
                self.state = ActorState::Running;
                StepOutcome::Started
            },
            ActorState::Running => {
                match self.mailbox.recv() {
                    RecvPoll::Ready(env) => {
                        let (msg, sender) = env.open();
                        let result = self.actor.handle(msg, &mut self.ctx);
                        if self.ctx.is_stop_requested() {
                            self.stop_latched = true;
                        }
                        let rep = match sender {
                            Some(s) => Some(s.respond(result)),
                            None => None,
                        };
                        StepOutcome::Dispatched(rep)
                    },
                    RecvPoll::Done => {
                        self.mailbox.close();
                        self.state = ActorState::Stopping;
                        StepOutcome::Stopping
                    },
                    RecvPoll::Idle => {
                        if self.stop_latched {
                            self.mailbox.close();
                            self.state = ActorState::Stopping;
                            StepOutcome::Stopping
                        } else {
                            StepOutcome::Idle
                        }
                    },
                }
            },
            ActorState::Stopping => {
                self.actor.stopped(&mut self.ctx);
                self.state = ActorState::Stopped;
                StepOutcome::Stopped
            },
            ActorState::Stopped => StepOutcome::Stopped,
        }
    }

    /// Drive the loop to its end: every envelope already queued is
    /// dispatched, in order — the stop discards nothing in flight — then
    /// the stop hook runs and the cell is stopped. Envelopes offered
    /// after the stop was honored were never queued, so they are exactly
    /// the ones discarded. The replies of the drained asks come back in
    /// dispatch order: no asker among them is left waiting.
    pub fn run_until_stopped(&mut self) -> (replies: Vec<Reply<M::Result>>)
        requires
            old(self).wf(),
            old(self).stop_requested() || old(self).mailbox_closed(),
        ensures
            final(self).wf(),
            final(self).lifecycle() is Stopped,
            final(self).accepted() == old(self).accepted(),
            final(self).config_spec() == old(self).config_spec(),
            final(self).dispatched() == old(self).dispatched() + old(self).pending(),
            final(self).pending().len() == 0,
            replies@.map_values(|rp: Reply<M::Result>| rp.reply_id) == ask_ids(
                old(self).pending(),
            ),
    {
        let mut replies: Vec<Reply<M::Result>> = Vec::new();
        let ghost mut done: Seq<EnvelopeView<M>> = Seq::empty();
        proof {
            assert(old(self).dispatched() + done =~= old(self).dispatched());
            assert(done + self.pending() =~= self.pending());
            assert(replies@.map_values(|rp: Reply<M::Result>| rp.reply_id) =~= ask_ids(done));
        }
        loop
            invariant
                self.wf(),
                self.stop_requested() || self.mailbox_closed(),
                self.accepted() == old(self).accepted(),
                self.config_spec() == old(self).config_spec(),
                old(self).pending() == done + self.pending(),
                self.dispatched() == old(self).dispatched() + done,
                replies@.map_values(|rp: Reply<M::Result>| rp.reply_id) == ask_ids(done),
            decreases state_rank(self.lifecycle()), self.pending().len(),
        {
            let state = self.lifecycle_state();
            match state {
                ActorState::Stopped => {
                    proof {
                        assert(self.pending() =~= Seq::<EnvelopeView<M>>::empty());
                        assert(done =~= old(self).pending());
                    }
                    return replies;
                },
                _ => {},
            }
            let ghost pend_before = self.pending();
            let out = self.step();
            match out {
                StepOutcome::Dispatched(rep) => {
                    let ghost prev = done;
                    let ghost e = pend_before[0];
                    proof {
                        done = done.push(e);
                        assert(old(self).pending() =~= done + self.pending());
                        assert(self.dispatched() =~= old(self).dispatched() + done);
                        assert(done.drop_last() =~= prev);
                        assert(done.last() == e);
                    }
                    match rep {
                        Some(rp) => {
                            replies.push(rp);
                            proof {
                                assert(e.reply_id == Some(rp.reply_id));
                                assert(ask_ids(done) =~= ask_ids(prev) + seq![rp.reply_id]);
                                assert(replies@.map_values(|x: Reply<M::Result>| x.reply_id)
                                    =~= ask_ids(done));
                            }
                        },
                        None => {
                            proof {
                                assert(e.reply_id is None);
                                assert(ask_ids(done) =~= ask_ids(prev));
                            }
                        },
                    }
                },
                _ => {},
            }
        }
    }
}


/// FIFO per producer, at the cell: of the messages one producer sent to
/// this actor, those dispatched so far are a prefix, in the producer's
/// own send order — a stop in between loses the tail, never reorders.
pub proof fn lemma_cell_fifo_per_producer<A, M>(cell: &ActorCell<A, M>, p: u64) where
    A: Actor + Handler<M>,
    M: Message,

    requires
        cell.wf(),
    ensures
        crate::mailbox::is_prefix_of(
            crate::mailbox::of_producer(cell.dispatched(), p),
            crate::mailbox::of_producer(cell.accepted(), p),
        ),
{
    crate::mailbox::lemma_fifo_per_producer(&cell.mailbox, p)
}


/// The ask identifiers of a concatenation are the two lists joined.
proof fn lemma_ask_ids_concat<M>(a: Seq<EnvelopeView<M>>, b: Seq<EnvelopeView<M>>)
    ensures
        ask_ids(a + b) == ask_ids(a) + ask_ids(b),
    decreases b.len(),
{
    if b.len() == 0 {
        assert(a + b =~= a);
        assert(ask_ids(a) + ask_ids(b) =~= ask_ids(a));
    } else {
        lemma_ask_ids_concat(a, b.drop_last());
        assert((a + b).drop_last() =~= a + b.drop_last());
        assert((a + b).last() == b.last());
        match b.last().reply_id {
            Some(id) => {
                assert(ask_ids(a + b) =~= (ask_ids(a) + ask_ids(b.drop_last())) + seq![id]);
                assert(ask_ids(b) =~= ask_ids(b.drop_last()) + seq![id]);
                assert((ask_ids(a) + ask_ids(b.drop_last())) + seq![id] =~= ask_ids(a) + (ask_ids(
                    b.drop_last(),
                ) + seq![id]));
            },
            None => {
                assert(ask_ids(a + b) =~= ask_ids(a) + ask_ids(b.drop_last()));
                assert(ask_ids(b) =~= ask_ids(b.drop_last()));
            },
        }
    }
}

/// No ask is lost inside the runtime: every ask the mailbox accepted is
/// either among the dispatched envelopes — where the step that dispatched
/// it produced exactly one reply under its identifier — or still queued.
/// An ask the mailbox did not accept was refused in front of its sender.
pub proof fn lemma_no_ask_lost<A, M>(cell: &ActorCell<A, M>) where
    A: Actor + Handler<M>,
    M: Message,

    requires
        cell.wf(),
    ensures
        ask_ids(cell.accepted()) == ask_ids(cell.dispatched()) + ask_ids(cell.pending()),
{
    crate::mailbox::lemma_mailbox_log(&cell.mailbox);
    lemma_ask_ids_concat(cell.mailbox.removed(), cell.mailbox.pending());
}


/// Dispatch follows arrival one for one: the i-th envelope ever
/// dispatched is the i-th envelope ever accepted. Each envelope is
/// handled at most once, and the single consumer never reorders; no two
/// dispatches of this actor can overlap, because each happens inside one
/// exclusive borrow of the cell.
pub proof fn lemma_dispatch_matches_arrival<A, M>(cell: &ActorCell<A, M>) where
    A: Actor + Handler<M>,
    M: Message,

    requires
        cell.wf(),
    ensures
        cell.dispatched().len() <= cell.accepted().len(),
        forall|i: int|
            0 <= i < cell.dispatched().len() ==> cell.dispatched()[i] == cell.accepted()[i],
{
    crate::mailbox::lemma_mailbox_log(&cell.mailbox);
}

} // verus!
