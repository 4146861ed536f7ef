//! Spawning, naming and the registry directory.

use protoactor::actor_system::{ActorSystem, ActorSystemInner, SpawnError};
use protoactor::config::ActorSystemConfig;
use protoactor::registry::Registry;
use protoactor::pid::Pid;

#[test]
fn duplicate_names_are_rejected_and_the_first_entry_stays() {
    let mut inner = ActorSystemInner::new();
    let first = inner.spawn_named("counter".to_string()).expect("first spawn");
    let second = inner.spawn_named("counter".to_string());
    assert_eq!(second, Err(SpawnError::DuplicateName));
    let resolved = inner.resolve(&"counter".to_string()).expect("resolving");
    assert_eq!(resolved, first);
}

#[test]
fn automatic_names_count_upward() {
    let mut inner = ActorSystemInner::new();
    let a = inner.spawn("").expect("first automatic spawn");
    let b = inner.spawn("").expect("second automatic spawn");
    let c = inner.spawn("pong").expect("prefixed spawn");
    assert_eq!(a.id, "$0");
    assert_eq!(b.id, "$1");
    assert_eq!(c.id, "pong/$2");
    assert_eq!(a.address, "nohost");
    assert_eq!(a.request_id, 0);
}

#[test]
fn deregistering_frees_the_name_for_reuse() {
    let mut inner = ActorSystemInner::new();
    let first = inner.spawn_named("worker".to_string()).expect("spawn");
    let removed = inner.deregister(&"worker".to_string());
    assert_eq!(removed, Some(first));
    assert_eq!(inner.resolve(&"worker".to_string()), None);
    inner.spawn_named("worker".to_string()).expect("the name is free again");
}

#[test]
fn deregistering_leaves_other_names_alone() {
    let mut inner = ActorSystemInner::new();
    let kept = inner.spawn_named("a".to_string()).expect("spawn a");
    inner.spawn_named("b".to_string()).expect("spawn b");
    inner.deregister(&"b".to_string());
    assert_eq!(inner.resolve(&"a".to_string()), Some(kept));
    assert_eq!(inner.deregister(&"missing".to_string()), None);
}

#[test]
fn a_registry_looks_up_what_it_holds() {
    let mut registry = Registry::new();
    assert_eq!(registry.len(), 0);
    assert!(!registry.contains(&"x".to_string()));
    let pid = Pid::new("x".to_string(), "nohost".to_string());
    assert!(registry.try_insert("x".to_string(), pid.duplicate()));
    assert!(registry.contains(&"x".to_string()));
    assert!(!registry.try_insert("x".to_string(), pid.duplicate()));
    assert_eq!(registry.len(), 1);
    assert_eq!(registry.resolve(&"x".to_string()), Some(pid));
}

#[test]
fn a_system_keeps_its_configuration() {
    let config = ActorSystemConfig::builder()
        .with_name("ping-pong")
        .with_worker_threads(4)
        .build();
    let mut system = ActorSystem::new(config);
    assert_eq!(system.config().name, "ping-pong");
    assert_eq!(system.config().worker_threads, 4);
    let pid = system.inner().spawn_named("a".to_string()).expect("spawn");
    assert_eq!(pid.id, "a");
}
