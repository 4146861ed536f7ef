//! The lifecycle loop: ask round trips, delivery order, stop semantics,
//! and sends to stopped actors.

use protoactor::actor::{Actor, Handler};
use protoactor::cell::{ActorCell, StepOutcome};
use protoactor::actor_ref::AskError;
use protoactor::context::{ActorState, Context};
use protoactor::mailbox::{Mailbox, MailboxConfig, OfferOutcome};
use protoactor::message::{Envelope, Message};
use protoactor::pid::Pid;
use protoactor::ping_pong::{Ping, PingActor, Pong};

fn ping_cell(config: MailboxConfig) -> ActorCell<PingActor, Ping> {
    let pid = Pid::new("$0".to_string(), "nohost".to_string());
    ActorCell::new(Context::new(pid), PingActor { counter: 0 }, Mailbox::new(config))
}

/// Records every message it handles, so delivery order is observable.
struct Recorder {
    seen: Vec<u64>,
}

struct Record(u64);

impl Message for Record {
    type Result = ();
}

impl Actor for Recorder {}

impl Handler<Record> for Recorder {
    fn handle(&mut self, msg: Record, _ctx: &mut Context) {
        self.seen.push(msg.0);
    }
}

fn recorder_cell() -> ActorCell<Recorder, Record> {
    let pid = Pid::new("$1".to_string(), "nohost".to_string());
    ActorCell::new(
        Context::new(pid),
        Recorder { seen: Vec::new() },
        Mailbox::new(MailboxConfig::Unbounded),
    )
}

#[test]
fn ask_round_trip_yields_one_two_three() {
    let mut cell = ping_cell(MailboxConfig::Unbounded);
    assert!(matches!(cell.step(), StepOutcome::Started));

    let mut answers = Vec::new();
    for reply_id in 1..=3u64 {
        cell.request(Ping, reply_id, 0).expect("queueing an ask");
        match cell.step() {
            StepOutcome::Dispatched(Some(reply)) => {
                assert_eq!(reply.reply_id, reply_id);
                answers.push(reply.value);
            }
            _ => panic!("expected a dispatched reply"),
        }
    }
    let counts: Vec<usize> = answers.iter().map(|pong| pong.0).collect();
    assert_eq!(counts, vec![1, 2, 3]);
    for pong in &answers {
        assert_eq!(pong.1, "Pong");
    }
}

#[test]
fn no_dispatch_happens_before_the_start_hook() {
    let mut cell = ping_cell(MailboxConfig::Unbounded);
    cell.request(Ping, 1, 0).expect("queueing before start");
    // the first turn runs the start hook, not a dispatch
    assert!(matches!(cell.step(), StepOutcome::Started));
    assert!(matches!(cell.step(), StepOutcome::Dispatched(Some(_))));
}

#[test]
fn fire_and_forget_resolves_no_reply() {
    let mut cell = recorder_cell();
    cell.step();
    assert_eq!(cell.send(Record(5), 0), OfferOutcome::Accepted);
    match cell.step() {
        StepOutcome::Dispatched(None) => {}
        _ => panic!("expected a dispatch without a reply"),
    }
    assert_eq!(cell.actor_ref().seen, vec![5]);
}

#[test]
fn delivery_keeps_each_producers_order() {
    let mut cell = recorder_cell();
    cell.step();
    // two producers interleave; each one's own messages stay in order
    assert_eq!(cell.send(Record(10), 1), OfferOutcome::Accepted);
    assert_eq!(cell.send(Record(20), 2), OfferOutcome::Accepted);
    assert_eq!(cell.send(Record(11), 1), OfferOutcome::Accepted);
    assert_eq!(cell.send(Record(21), 2), OfferOutcome::Accepted);
    assert_eq!(cell.send(Record(12), 1), OfferOutcome::Accepted);
    while matches!(cell.step(), StepOutcome::Dispatched(_)) {}
    let seen = &cell.actor_ref().seen;
    let of_one: Vec<u64> = seen.iter().copied().filter(|m| *m / 10 == 1).collect();
    let of_two: Vec<u64> = seen.iter().copied().filter(|m| *m / 10 == 2).collect();
    assert_eq!(of_one, vec![10, 11, 12]);
    assert_eq!(of_two, vec![20, 21]);
}

#[test]
fn stop_drains_in_flight_and_discards_later_sends() {
    let mut cell = recorder_cell();
    assert!(matches!(cell.step(), StepOutcome::Started));
    // three messages already queued when the stop signal arrives
    cell.send(Record(1), 0);
    cell.send(Record(2), 0);
    cell.send(Record(3), 0);
    cell.signal_stop();
    // drain-before-stop: all three dispatch before the stop is honored
    assert!(matches!(cell.step(), StepOutcome::Dispatched(None)));
    assert!(matches!(cell.step(), StepOutcome::Dispatched(None)));
    assert!(matches!(cell.step(), StepOutcome::Dispatched(None)));
    assert!(matches!(cell.step(), StepOutcome::Stopping));
    // the fourth send arrives after the stop was honored: discarded
    assert_eq!(cell.send(Record(4), 0), OfferOutcome::Closed);
    assert!(matches!(cell.step(), StepOutcome::Stopped));
    assert_eq!(cell.actor_ref().seen, vec![1, 2, 3]);
    assert_eq!(cell.lifecycle_state(), ActorState::Stopped);
}

#[test]
fn run_until_stopped_answers_every_drained_ask() {
    let mut cell = ping_cell(MailboxConfig::Unbounded);
    cell.step();
    cell.request(Ping, 7, 0).expect("first ask");
    cell.send(Ping, 0);
    cell.request(Ping, 9, 0).expect("second ask");
    cell.signal_stop();
    let replies = cell.run_until_stopped();
    let ids: Vec<u64> = replies.iter().map(|r| r.reply_id).collect();
    assert_eq!(ids, vec![7, 9]);
    assert_eq!(cell.lifecycle_state(), ActorState::Stopped);
    assert_eq!(cell.actor_ref().counter, 3);
}

#[test]
fn sends_to_a_stopped_actor_fail_without_panicking() {
    let mut cell = ping_cell(MailboxConfig::Unbounded);
    cell.step();
    cell.signal_stop();
    let replies = cell.run_until_stopped();
    assert!(replies.is_empty());
    assert_eq!(cell.lifecycle_state(), ActorState::Stopped);
    // a later send is dropped, never delivered, never a panic
    assert_eq!(cell.send(Ping, 0), OfferOutcome::Closed);
    // a later ask resolves to an explicit failure instead of hanging
    assert_eq!(cell.request(Ping, 1, 0), Err(AskError::Rejected));
    assert_eq!(cell.queue_len(), 0);
    assert_eq!(cell.actor_ref().counter, 0);
}

#[test]
fn a_bounded_mailbox_reports_back_pressure() {
    let mut cell = ping_cell(MailboxConfig::Bounded(2));
    cell.step();
    assert_eq!(cell.send(Ping, 0), OfferOutcome::Accepted);
    assert_eq!(cell.send(Ping, 0), OfferOutcome::Accepted);
    assert_eq!(cell.send(Ping, 0), OfferOutcome::Full);
    assert_eq!(cell.request(Ping, 1, 0), Err(AskError::Rejected));
    // room opens up again after a dispatch
    assert!(matches!(cell.step(), StepOutcome::Dispatched(None)));
    assert_eq!(cell.send(Ping, 0), OfferOutcome::Accepted);
}

#[test]
fn a_closed_mailbox_ends_the_stream_after_draining() {
    let pid = Pid::new("$2".to_string(), "nohost".to_string());
    let mut mailbox: Mailbox<Record> = Mailbox::new(MailboxConfig::Unbounded);
    mailbox.offer(Envelope::new(Record(1), None));
    mailbox.close();
    assert_eq!(mailbox.offer(Envelope::new(Record(2), None)), OfferOutcome::Closed);
    let mut cell = ActorCell::new(Context::new(pid), Recorder { seen: Vec::new() }, mailbox);
    cell.step();
    // the queued message still dispatches, then the loop winds down
    assert!(matches!(cell.step(), StepOutcome::Dispatched(None)));
    assert!(matches!(cell.step(), StepOutcome::Stopping));
    assert!(matches!(cell.step(), StepOutcome::Stopped));
    assert_eq!(cell.actor_ref().seen, vec![1]);
}

#[test]
fn an_idle_running_actor_stays_running() {
    let mut cell = recorder_cell();
    cell.step();
    assert!(matches!(cell.step(), StepOutcome::Idle));
    assert_eq!(cell.lifecycle_state(), ActorState::Running);
}

#[test]
fn a_sampling_marker_resets_the_counter() {
    let pid = Pid::new("$3".to_string(), "nohost".to_string());
    let mut cell: ActorCell<PingActor, protoactor::ping_pong::Sample1Sec> = ActorCell::new(
        Context::new(pid),
        PingActor { counter: 41 },
        Mailbox::new(MailboxConfig::Unbounded),
    );
    cell.step();
    cell.send(protoactor::ping_pong::Sample1Sec, 0);
    assert!(matches!(cell.step(), StepOutcome::Dispatched(None)));
    assert_eq!(cell.actor_ref().counter, 0);
}
