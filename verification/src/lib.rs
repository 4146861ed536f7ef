//! An actor-model concurrency core: actors hold isolated state and interact
//! only through asynchronously delivered messages, each actor consuming its
//! mailbox one envelope at a time.
//!
//! This crate verifies the runtime's logic: process identifiers and their wire
//! encoding, the mailbox queue and its delivery order, the actor lifecycle
//! state machine with its drain-before-stop policy, the one-shot reply
//! protocol behind `request`, the name registry with atomic duplicate
//! rejection, and the masked diagnostic rendering of messages. The
//! asynchronous substrate (task scheduling, channel wake-ups) is supplied by
//! the host around these verified decisions.

pub mod actor;
pub mod actor_ref;
pub mod actor_system;
pub mod cell;
pub mod config;
pub mod context;
pub mod mailbox;
pub mod masked;
pub mod message;
pub mod pid;
pub mod ping_pong;
pub mod prelude;
pub mod props;
pub mod registry;
pub mod wire;

pub use pid::Pid;
