//! Props: how to create one actor instance.
//!
//! A [`Props`] bundles the spawn-time choices the runtime makes for an
//! actor: the naming prefix its automatic names carry and the capacity
//! policy of its mailbox. The host pairs it with an actor factory when it
//! spawns, and draws each actor's fresh mailbox from
//! [`Props::produce_mailbox`].

use vstd::prelude::*;

use crate::mailbox::{Mailbox, MailboxConfig};
use crate::message::Message;

verus! {

/// Spawn-time configuration for one kind of actor.
pub struct Props {
    prefix: String,
    mailbox_config: MailboxConfig,
}

impl Props {
    /// The prefix automatic names of this actor take.
    pub closed spec fn prefix_spec(&self) -> Seq<char> {
        self.prefix@
    }

    /// The capacity policy of this actor's mailboxes.
    pub closed spec fn mailbox_spec(&self) -> MailboxConfig {
        self.mailbox_config
    }

    /// Props with the given naming prefix and the default, unbounded
    /// mailbox.
    pub fn new(prefix: String) -> (r: Props)
        ensures
            r.prefix_spec() == prefix@,
            r.mailbox_spec() is Unbounded,
    {
        Props { prefix, mailbox_config: MailboxConfig::Unbounded }
    }

    /// The same props with the given mailbox policy.
    pub fn with_mailbox(self, mailbox_config: MailboxConfig) -> (r: Props)
        ensures
            r.prefix_spec() == self.prefix_spec(),
            r.mailbox_spec() == mailbox_config,
    {
        Props { mailbox_config, ..self }
    }

    /// The naming prefix, to hand to an automatic spawn.
    pub fn prefix(&self) -> (r: &str)
        ensures
            r@ == self.prefix_spec(),
    {
        self.prefix.as_str()
    }

    /// A fresh, empty mailbox under this props' policy, for one spawned
    /// actor.
    pub fn produce_mailbox<M: Message>(&self) -> (r: Mailbox<M>)
        ensures
            r.wf(),
            r.pending().len() == 0,
            r.arrivals().len() == 0,
            r.removed().len() == 0,
            r.config_spec() == self.mailbox_spec(),
            !r.is_closed(),
    {
        Mailbox::new(self.mailbox_config)
    }
}

} // verus!
