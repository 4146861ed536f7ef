//! The name registry: the system-wide directory from names to addresses.
//!
//! Names are unique within one system instance; the registry is the
//! single source of truth for "is this name taken". Check-and-insert is
//! one operation under one exclusive borrow, so two concurrent spawns of
//! the same name cannot both succeed — a host shares the registry behind
//! a lock and each operation runs in its critical section.

use vstd::prelude::*;

use crate::pid::{Pid, PidView};

verus! {

/// The address registered under a name, searched newest-first (names are
/// unique, so the order never matters).
pub open spec fn lookup_in(s: Seq<(Seq<char>, PidView)>, name: Seq<char>) -> Option<PidView>
    decreases s.len(),
{
    if s.len() == 0 {
        None
    } else if s.last().0 == name {
        Some(s.last().1)
    } else {
        lookup_in(s.drop_last(), name)
    }
}

struct RegistryEntry {
    name: String,
    pid: Pid,
}

/// The directory from actor names to their addresses.
pub struct Registry {
    entries: Vec<RegistryEntry>,
}

impl Registry {
    /// The registered name-to-address pairs, in registration order.
    pub closed spec fn entries(&self) -> Seq<(Seq<char>, PidView)> {
        self.entries@.map_values(|e: RegistryEntry| (e.name@, e.pid@))
    }

    /// The address registered under `name`, if any.
    pub open spec fn lookup(&self, name: Seq<char>) -> Option<PidView> {
        lookup_in(self.entries(), name)
    }

    /// Whether `name` is taken.
    pub open spec fn has_name(&self, name: Seq<char>) -> bool {
        self.lookup(name) is Some
    }

    /// Names are unique: no two entries share one.
    pub closed spec fn wf(&self) -> bool {
        forall|i: int, j: int|
            0 <= i < j < self.entries().len() ==> self.entries()[i].0 != self.entries()[j].0
    }

    /// An empty registry.
    pub fn new() -> (r: Registry)
        ensures
            r.wf(),
            r.entries() == Seq::<(Seq<char>, PidView)>::empty(),
    {
        let r = Registry { entries: Vec::new() };
        proof {
            assert(r.entries() =~= Seq::<(Seq<char>, PidView)>::empty());
        }
        r
    }

    /// Whether an actor is registered under `name`.
    pub fn contains(&self, name: &String) -> (r: bool)
        ensures
            r == self.has_name(name@),
    {
        let n = self.entries.len();
        let mut i: usize = 0;
        while i < n
            invariant
                n == self.entries().len(),
                i <= n,
                lookup_in(self.entries().take(i as int), name@) is None,
            decreases n - i,
        {
            proof {
                assert(self.entries().take(i + 1 as int).drop_last() =~= self.entries().take(
                    i as int,
                ));
            }
            if self.entries[i].name == *name {
                proof {
                    lemma_lookup_extend_found(self.entries(), i as int, name@);
                }
                return true;
            }
            i = i + 1;
        }
        proof {
            assert(self.entries().take(n as int) =~= self.entries());
        }
        false
    }

    /// The address registered under `name`, or `None`.
    pub fn resolve(&self, name: &String) -> (r: Option<Pid>)
        requires
            self.wf(),
        ensures
            match r {
                Some(pid) => self.lookup(name@) == Some(pid@),
                None => self.lookup(name@) is None,
            },
    {
        let n = self.entries.len();
        let mut i: usize = 0;
        while i < n
            invariant
                self.wf(),
                n == self.entries().len(),
                i <= n,
                lookup_in(self.entries().take(i as int), name@) is None,
            decreases n - i,
        {
            proof {
                assert(self.entries().take(i + 1 as int).drop_last() =~= self.entries().take(
                    i as int,
                ));
            }
            if self.entries[i].name == *name {
                proof {
                    lemma_lookup_extend_found(self.entries(), i as int, name@);
                }
                let pid = self.entries[i].pid.duplicate();
                proof {
                    lemma_lookup_unique(self.entries(), i as int, name@);
                }
                return Some(pid);
            }
            i = i + 1;
        }
        proof {
            assert(self.entries().take(n as int) =~= self.entries());
        }
        None
    }

    /// Register `pid` under `name` exactly when the name is free: a taken
    /// name leaves the registry unchanged and reports the conflict, so
    /// the earlier registration stays the sole entry under that name.
    pub fn try_insert(&mut self, name: String, pid: Pid) -> (r: bool)
        requires
            old(self).wf(),
        ensures
            final(self).wf(),
            r == !old(self).has_name(name@),
            r ==> final(self).entries() == old(self).entries().push((name@, pid@)),
            !r ==> final(self).entries() == old(self).entries(),
            r ==> final(self).lookup(name@) == Some(pid@),
    {
        if self.contains(&name) {
            return false;
        }
        let ghost old_entries = self.entries();
        self.entries.push(RegistryEntry { name, pid });
        proof {
            assert(self.entries() =~= old_entries.push((name@, pid@)));
            assert forall|i: int, j: int| 0 <= i < j < self.entries().len() implies self.entries()[i].0
                != self.entries()[j].0 by {
                if j == self.entries().len() - 1 {
                    lemma_lookup_none_no_name(old_entries, name@);
                }
            };
        }
        true
    }

    /// Remove the registration under `name`, freeing the name for reuse;
    /// the removed address comes back, or `None` when the name was free.
    pub fn remove(&mut self, name: &String) -> (r: Option<Pid>)
        requires
            old(self).wf(),
        ensures
            final(self).wf(),
            final(self).lookup(name@) is None,
            match r {
                Some(pid) => old(self).lookup(name@) == Some(pid@),
                None => old(self).lookup(name@) is None && final(self).entries() == old(
                    self,
                ).entries(),
            },
            forall|other: Seq<char>|
                other != name@ ==> final(self).lookup(other) == old(self).lookup(other),
            r is Some ==> final(self).entries().len() == old(self).entries().len() - 1,
    {
        let n = self.entries.len();
        let mut i: usize = 0;
        while i < n
            invariant
                n == self.entries().len(),
                i <= n,
                lookup_in(self.entries().take(i as int), name@) is None,
                self.wf(),
                self == old(self),
            decreases n - i,
        {
            proof {
                assert(self.entries().take(i + 1 as int).drop_last() =~= self.entries().take(
                    i as int,
                ));
            }
            if self.entries[i].name == *name {
                let ghost before = self.entries();
                proof {
                    lemma_lookup_extend_found(before, i as int, name@);
                    lemma_lookup_unique(before, i as int, name@);
                }
                let entry = self.entries.remove(i);
                proof {
                    assert(self.entries() =~= before.remove(i as int));
                    lemma_lookup_after_remove(before, i as int);
                }
                return Some(entry.pid);
            }
            i = i + 1;
        }
        proof {
            assert(self.entries().take(n as int) =~= self.entries());
        }
        None
    }

    /// How many actors are registered.
    pub fn len(&self) -> (r: usize)
        ensures
            r == self.entries().len(),
    {
        self.entries.len()
    }
}

/// If `name` does not resolve in `s`, no entry of `s` carries it.
proof fn lemma_lookup_none_no_name(s: Seq<(Seq<char>, PidView)>, name: Seq<char>)
    requires
        lookup_in(s, name) is None,
    ensures
        forall|i: int| 0 <= i < s.len() ==> s[i].0 != name,
    decreases s.len(),
{
    if s.len() > 0 {
        lemma_lookup_none_no_name(s.drop_last(), name);
        assert forall|i: int| 0 <= i < s.len() implies s[i].0 != name by {
            if i < s.len() - 1 {
                assert(s.drop_last()[i] == s[i]);
            }
        };
    }
}

/// If entry `i` carries `name` and nothing before it does, the lookup
/// resolves somewhere at or after `i`.
proof fn lemma_lookup_extend_found(s: Seq<(Seq<char>, PidView)>, i: int, name: Seq<char>)
    requires
        0 <= i < s.len(),
        s[i].0 == name,
    ensures
        lookup_in(s, name) is Some,
    decreases s.len(),
{
    if s.len() > 0 && s.last().0 != name {
        assert(i < s.len() - 1);
        assert(s.drop_last()[i] == s[i]);
        lemma_lookup_extend_found(s.drop_last(), i, name);
    }
}

/// With unique names, the lookup resolves to the one entry that carries
/// the name.
proof fn lemma_lookup_unique(s: Seq<(Seq<char>, PidView)>, i: int, name: Seq<char>)
    requires
        0 <= i < s.len(),
        s[i].0 == name,
        forall|a: int, b: int| 0 <= a < b < s.len() ==> s[a].0 != s[b].0,
    ensures
        lookup_in(s, name) == Some(s[i].1),
    decreases s.len(),
{
    if s.last().0 == name {
        assert(i == s.len() - 1);
    } else {
        assert(i < s.len() - 1);
        assert(s.drop_last()[i] == s[i]);
        assert(forall|a: int, b: int|
            0 <= a < b < s.drop_last().len() ==> s.drop_last()[a].0 != s.drop_last()[b].0);
        lemma_lookup_unique(s.drop_last(), i, name);
    }
}

/// Removing entry `i` from a unique-named list: uniqueness holds, the
/// removed name no longer resolves, and every other name resolves as
/// before.
proof fn lemma_lookup_after_remove(s: Seq<(Seq<char>, PidView)>, i: int)
    requires
        0 <= i < s.len(),
        forall|a: int, b: int| 0 <= a < b < s.len() ==> s[a].0 != s[b].0,
    ensures
        forall|a: int, b: int|
            0 <= a < b < s.remove(i).len() ==> s.remove(i)[a].0 != s.remove(i)[b].0,
        lookup_in(s.remove(i), s[i].0) is None,
        forall|other: Seq<char>|
            other != s[i].0 ==> lookup_in(s.remove(i), other) == lookup_in(s, other),
    decreases s.len(),
{
    let t = s.remove(i);
    assert forall|a: int, b: int| 0 <= a < b < t.len() implies t[a].0 != t[b].0 by {
        let a0 = if a < i {
            a
        } else {
            a + 1
        };
        let b0 = if b < i {
            b
        } else {
            b + 1
        };
        assert(t[a] == s[a0] && t[b] == s[b0]);
    };
    assert forall|j: int| 0 <= j < t.len() implies t[j].0 != s[i].0 by {
        let j0 = if j < i {
            j
        } else {
            j + 1
        };
        assert(t[j] == s[j0]);
    };
    lemma_no_name_lookup_none(t, s[i].0);
    assert forall|other: Seq<char>| other != s[i].0 implies lookup_in(t, other) == lookup_in(
        s,
        other,
    ) by {
        lemma_lookup_skip_absent(s, t, i, other);
    };
}

/// A name carried by no entry does not resolve.
proof fn lemma_no_name_lookup_none(s: Seq<(Seq<char>, PidView)>, name: Seq<char>)
    requires
        forall|j: int| 0 <= j < s.len() ==> s[j].0 != name,
    ensures
        lookup_in(s, name) is None,
    decreases s.len(),
{
    if s.len() > 0 {
        assert(forall|j: int| 0 <= j < s.drop_last().len() ==> s.drop_last()[j] == s[j]);
        lemma_no_name_lookup_none(s.drop_last(), name);
    }
}

/// Dropping the one entry of a different name leaves a lookup unchanged.
proof fn lemma_lookup_skip_absent(
    s: Seq<(Seq<char>, PidView)>,
    t: Seq<(Seq<char>, PidView)>,
    i: int,
    name: Seq<char>,
)
    requires
        0 <= i < s.len(),
        t == s.remove(i),
        s[i].0 != name,
    ensures
        lookup_in(t, name) == lookup_in(s, name),
    decreases s.len(),
{
    if i == s.len() - 1 {
        assert(t =~= s.drop_last());
    } else {
        assert(t.len() == s.len() - 1);
        assert(t.last() == s.last());
        assert(t.drop_last() =~= s.drop_last().remove(i));
        if s.last().0 == name {
        } else {
            lemma_lookup_skip_absent(s.drop_last(), t.drop_last(), i, name);
        }
    }
}

} // verus!
