//! Identifiers, contexts, reply sinks and configuration.

use protoactor::actor_ref::SenderRef;
use protoactor::config::{ActorSystemConfig, ActorSystemConfigBuilder};
use protoactor::context::Context;
use protoactor::message::Envelope;
use protoactor::mailbox::MailboxConfig;
use protoactor::pid::Pid;
use protoactor::ping_pong::Ping;
use protoactor::props::Props;

#[test]
fn identity_ignores_the_correlation_tag() {
    let a = Pid::new("worker".to_string(), "nohost".to_string());
    let b = a.duplicate().with_request_id(9);
    assert!(a.same_identity(&b));
    assert_ne!(a, b);
    assert_eq!(a, a.duplicate());
    let c = Pid::new("worker".to_string(), "elsewhere".to_string());
    assert!(!a.same_identity(&c));
}

#[test]
fn clear_resets_every_field() {
    let mut p = Pid::new("x".to_string(), "h".to_string()).with_request_id(3);
    p.clear();
    assert_eq!(p, Pid::default());
}

#[test]
fn a_context_resolves_its_installed_sender_once() {
    let pid = Pid::new("$0".to_string(), "nohost".to_string());
    let mut ctx = Context::new(pid.duplicate());
    assert_eq!(ctx.myself().id, "$0");
    assert!(ctx.sender().is_none());
    // without an asking sender, responding is a no-op
    assert!(ctx.response(41u64).is_none());

    ctx.set_sender(Some(SenderRef::new(8)));
    assert_eq!(ctx.sender().map(|s| s.reply_id()), Some(8));
    let reply = ctx.response(41u64).expect("the installed sender resolves");
    assert_eq!(reply.reply_id, 8);
    assert_eq!(reply.value, 41);
    // the sink is consumed: a second response is a no-op again
    assert!(ctx.response(42u64).is_none());
}

#[test]
fn stop_requests_are_idempotent() {
    let pid = Pid::new("$0".to_string(), "nohost".to_string());
    let mut ctx = Context::new(pid);
    assert!(!ctx.is_stop_requested());
    ctx.stop();
    ctx.stop();
    assert!(ctx.is_stop_requested());
}

#[test]
fn a_sender_ref_pairs_the_reply_with_its_ask() {
    let sink = SenderRef::new(5);
    assert_eq!(sink.reply_id(), 5);
    let reply = sink.respond("done".to_string());
    assert_eq!(reply.reply_id, 5);
    assert_eq!(reply.value, "done");
}

#[test]
fn an_envelope_carries_message_sink_and_producer() {
    let env = Envelope::new(Ping, Some(SenderRef::new(3))).from_producer(12);
    let (_msg, sink) = env.open();
    assert_eq!(sink.map(|s| s.reply_id()), Some(3));
    let env = Envelope::new(Ping, None);
    let (_msg, sink) = env.open();
    assert!(sink.is_none());
}

#[test]
fn the_default_configuration_matches_its_documentation() {
    let config = ActorSystemConfig::default();
    assert_eq!(config.name, "local");
    assert!(config.worker_threads >= 1);
    assert_eq!(config.host, "nohost");
    assert_eq!(config.port, 0);
    assert_eq!(config.dead_letter_throttle_interval_ms, 1000);
    assert_eq!(config.dead_letter_throttle_count, 10);
    assert!(config.dead_letter_request_logging);
    assert!(!config.developer_supervision_logging);
    assert!(!config.metrics_enabled);
}

#[test]
fn each_builder_setter_touches_one_option() {
    let config = ActorSystemConfigBuilder::new()
        .with_name("mesh")
        .with_host("10.0.0.1")
        .with_port(8090)
        .with_worker_threads(2)
        .build();
    assert_eq!(config.name, "mesh");
    assert_eq!(config.host, "10.0.0.1");
    assert_eq!(config.port, 8090);
    assert_eq!(config.worker_threads, 2);
    assert_eq!(config.dead_letter_throttle_count, 10);
}

#[test]
fn props_carry_prefix_and_mailbox_policy() {
    let props = Props::new("pingers".to_string()).with_mailbox(MailboxConfig::Bounded(8));
    assert_eq!(props.prefix(), "pingers");
    let mailbox: protoactor::mailbox::Mailbox<Ping> = props.produce_mailbox();
    assert_eq!(mailbox.len(), 0);
}

#[test]
fn reserved_markers_have_their_documented_text() {
    assert_eq!(protoactor::config::no_host(), "nohost");
    assert_eq!(protoactor::config::client_marker(), "$client");
}
