//! The commonly used names, for one import.

pub use crate::actor::{Actor, Handler};
pub use crate::cell::ActorCell;
pub use crate::context::Context;
pub use crate::mailbox::{Mailbox, MailboxConfig};
pub use crate::message::{Envelope, Message};
pub use crate::pid::Pid;
pub use crate::props::Props;
