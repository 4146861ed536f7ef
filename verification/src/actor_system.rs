//! The system-wide coordinator: naming, the registry, and spawning.
//!
//! An [`ActorSystemInner`] owns the name registry and the identifier
//! counter. Spawning reserves a name — caller-given or generated from the
//! counter and an optional prefix — under one exclusive borrow, so the
//! check and the insert cannot be split by a concurrent spawn; the host
//! shares the inner state behind a lock and creates the mailbox, cell and
//! loop task around the address this returns. [`ActorSystem`] pairs that
//! state with its configuration.

use vstd::prelude::*;

use crate::config::{no_host, ActorSystemConfig};
use crate::masked::{dec_digits, text_of_u64};
use crate::pid::{Pid, PidView};
use crate::registry::Registry;

verus! {

/// Why a spawn failed.
#[derive(Debug, Clone, Copy, PartialEq, Eq, Structural)]
pub enum SpawnError {
    /// The requested name is already registered: names are unique within
    /// one system, and the earlier actor keeps the name.
    DuplicateName,
}

/// The name an automatic spawn takes: `$n`, or `prefix/$n` under a
/// prefix, where `n` is the value of the identifier counter.
pub open spec fn spec_auto_name(prefix: Seq<char>, n: nat) -> Seq<char> {
    if prefix.len() == 0 {
        seq!['$'] + dec_digits(n)
    } else {
        prefix + "/$"@ + dec_digits(n)
    }
}

/// The registry and the identifier counter of one system instance.
pub struct ActorSystemInner {
    registry: Registry,
    next_actor_id: u64,
}

impl ActorSystemInner {
    /// The name directory's entries.
    pub closed spec fn entries(&self) -> Seq<(Seq<char>, PidView)> {
        self.registry.entries()
    }

    /// The address registered under `name`, if any.
    pub closed spec fn lookup(&self, name: Seq<char>) -> Option<PidView> {
        self.registry.lookup(name)
    }

    /// The counter the next automatic name is drawn from.
    pub closed spec fn next_id(&self) -> u64 {
        self.next_actor_id
    }

    /// Registered names are unique.
    pub closed spec fn wf(&self) -> bool {
        self.registry.wf()
    }

    /// A fresh coordinator: empty registry, counter at zero.
    pub fn new() -> (r: ActorSystemInner)
        ensures
            r.wf(),
            r.entries() == Seq::<(Seq<char>, PidView)>::empty(),
            r.next_id() == 0,
    {
        ActorSystemInner { registry: Registry::new(), next_actor_id: 0 }
    }

    /// Reserve `name` and return the spawned actor's address. Fails, and
    /// changes nothing, exactly when the name is taken: the earlier
    /// registration stays the sole entry under that name. The check and
    /// the insert happen under this one exclusive borrow.
    pub fn spawn_named(&mut self, name: String) -> (r: Result<Pid, SpawnError>)
        requires
            old(self).wf(),
        ensures
            final(self).wf(),
            final(self).next_id() == old(self).next_id(),
            old(self).lookup(name@) is Some ==> r == Err::<Pid, SpawnError>(
                SpawnError::DuplicateName,
            ) && final(self).entries() == old(self).entries(),
            old(self).lookup(name@) is None ==> (r matches Ok(pid) && pid@.id == name@
                && pid@.address == "nohost"@ && pid@.request_id == 0
                && final(self).entries() == old(self).entries().push((name@, pid@))
                && final(self).lookup(name@) == Some(pid@)),
    {
        let pid = Pid::new(name.clone(), no_host());
        let handed_out = pid.duplicate();
        if self.registry.try_insert(name, pid) {
            Ok(handed_out)
        } else {
            Err(SpawnError::DuplicateName)
        }
    }

    /// Spawn under a generated name: the identifier counter combined with
    /// the caller's prefix. The counter moves forward even if the
    /// generated name collides with an explicitly registered one, in
    /// which case the spawn fails like a named one.
    pub fn spawn(&mut self, prefix: &str) -> (r: Result<Pid, SpawnError>)
        requires
            old(self).wf(),
            old(self).next_id() < u64::MAX,
        ensures
            final(self).wf(),
            final(self).next_id() == old(self).next_id() + 1,
            ({
                let name = spec_auto_name(prefix@, old(self).next_id() as nat);
                &&& old(self).lookup(name) is Some ==> r == Err::<Pid, SpawnError>(
                    SpawnError::DuplicateName,
                ) && final(self).entries() == old(self).entries()
                &&& old(self).lookup(name) is None ==> (r matches Ok(pid) && pid@.id == name
                    && pid@.address == "nohost"@ && pid@.request_id == 0
                    && final(self).entries() == old(self).entries().push((name, pid@))
                    && final(self).lookup(name) == Some(pid@))
            }),
    {
        let n = self.next_actor_id;
        self.next_actor_id = n + 1;
        let digits = text_of_u64(n);
        let mut name = String::new();
        if prefix.is_empty() {
            name.append("$");
            proof {
                reveal_strlit("$");
                assert((Seq::<char>::empty() + "$"@) + digits@ =~= spec_auto_name(
                    prefix@,
                    n as nat,
                ));
            }
        } else {
            name.append(prefix);
            name.append("/$");
            proof {
                assert(((Seq::<char>::empty() + prefix@) + "/$"@) + digits@ =~= spec_auto_name(
                    prefix@,
                    n as nat,
                ));
            }
        }
        name.append(digits.as_str());
        self.spawn_named(name)
    }

    /// The value the identifier counter stands at.
    pub fn next_id_value(&self) -> (r: u64)
        ensures
            r == self.next_id(),
    {
        self.next_actor_id
    }

    /// The address registered under `name`, or `None`.
    pub fn resolve(&self, name: &String) -> (r: Option<Pid>)
        requires
            self.wf(),
        ensures
            match r {
                Some(pid) => self.lookup(name@) == Some(pid@),
                None => self.lookup(name@) is None,
            },
    {
        self.registry.resolve(name)
    }

    /// Drop the registration of a stopped actor, freeing its name for
    /// reuse. Every other registration stays as it was.
    pub fn deregister(&mut self, name: &String) -> (r: Option<Pid>)
        requires
            old(self).wf(),
        ensures
            final(self).wf(),
            final(self).next_id() == old(self).next_id(),
            final(self).lookup(name@) is None,
            match r {
                Some(pid) => old(self).lookup(name@) == Some(pid@),
                None => old(self).lookup(name@) is None && final(self).entries() == old(
                    self,
                ).entries(),
            },
            forall|other: Seq<char>|
                other != name@ ==> final(self).lookup(other) == old(self).lookup(other),
    {
        self.registry.remove(name)
    }
}

/// One actor system: its coordinator state and its configuration.
pub struct ActorSystem {
    inner: ActorSystemInner,
    config: ActorSystemConfig,
}

impl ActorSystem {
    /// The coordinator state.
    pub closed spec fn inner_spec(&self) -> ActorSystemInner {
        self.inner
    }

    /// The configuration the system was built with.
    pub closed spec fn config_spec(&self) -> ActorSystemConfig {
        self.config
    }

    /// A fresh system under the given configuration: nothing spawned,
    /// counter at zero.
    pub fn new(config: ActorSystemConfig) -> (r: ActorSystem)
        ensures
            r.inner_spec().wf(),
            r.inner_spec().entries() == Seq::<(Seq<char>, PidView)>::empty(),
            r.inner_spec().next_id() == 0,
            r.config_spec() == config,
    {
        ActorSystem { inner: ActorSystemInner::new(), config }
    }

    /// The configuration, to read.
    pub fn config(&self) -> (r: &ActorSystemConfig)
        ensures
            r == self.config_spec(),
    {
        &self.config
    }

    /// The coordinator, to spawn and resolve through.
    pub fn inner(&mut self) -> (r: &mut ActorSystemInner)
        ensures
            *r == old(self).inner_spec(),
            final(self).inner_spec() == *final(r),
            final(self).config_spec() == old(self).config_spec(),
    {
        &mut self.inner
    }
}

} // verus!
