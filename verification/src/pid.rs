//! Process identifiers.
//!
//! A [`Pid`] names one actor within the system: the `address` locates the
//! host, the `id` is the actor's unique name on that host, and `request_id`
//! is an optional correlation tag for the ask protocol. Two identifiers
//! denote the same actor exactly when their `address` and `id` agree; the
//! correlation tag is not part of identity.

use vstd::prelude::*;

verus! {

/// The mathematical value of a [`Pid`]: its three fields as sequences of
/// characters and a plain integer.
pub struct PidView {
    pub address: Seq<char>,
    pub id: Seq<char>,
    pub request_id: u32,
}

impl PidView {
    /// Identity ignores the correlation tag.
    pub open spec fn same_identity(self, other: PidView) -> bool {
        self.address == other.address && self.id == other.id
    }
}

/// A process identifier: the unique, serializable name of one actor.
#[derive(Debug, Hash)]
pub struct Pid {
    /// Host locator; `"nohost"` means local with no remote host.
    pub address: String,
    /// Unique name of the actor on its host.
    pub id: String,
    /// Correlation tag for request/response; `0` when unused.
    pub request_id: u32,
}

impl View for Pid {
    type V = PidView;

    open spec fn view(&self) -> PidView {
        PidView { address: self.address@, id: self.id@, request_id: self.request_id }
    }
}

impl Pid {
    /// A fresh identifier with the given name and host, and no correlation
    /// tag.
    pub fn new(id: String, address: String) -> (r: Pid)
        ensures
            r@.id == id@,
            r@.address == address@,
            r@.request_id == 0,
    {
        Pid { address, id, request_id: 0 }
    }

    /// The same identifier carrying the given correlation tag.
    pub fn with_request_id(self, request_id: u32) -> (r: Pid)
        ensures
            r@.id == self@.id,
            r@.address == self@.address,
            r@.request_id == request_id,
    {
        Pid { request_id, ..self }
    }

    /// An exact copy, with its relation to the original known.
    pub fn duplicate(&self) -> (r: Pid)
        ensures
            r == *self,
    {
        Pid { address: self.address.clone(), id: self.id.clone(), request_id: self.request_id }
    }

    /// Whether the two identifiers name the same actor: equal `address` and
    /// `id`, the correlation tag left aside.
    pub fn same_identity(&self, other: &Pid) -> (r: bool)
        ensures
            r == self@.same_identity(other@),
    {
        self.address == other.address && self.id == other.id
    }

    /// Reset every field to its default.
    pub fn clear(&mut self)
        ensures
            final(self)@.address.len() == 0,
            final(self)@.id.len() == 0,
            final(self)@.request_id == 0,
    {
        self.address = String::new();
        self.id = String::new();
        self.request_id = 0;
    }
}

impl Clone for Pid {
    /// An exact copy.
    fn clone(&self) -> (r: Pid)
        ensures
            r == *self,
    {
        self.duplicate()
    }
}

impl PartialEq for Pid {
    fn eq(&self, other: &Pid) -> (r: bool) {
        self.address == other.address && self.id == other.id && self.request_id
            == other.request_id
    }
}

impl Eq for Pid {

}

impl vstd::std_specs::cmp::PartialEqSpecImpl for Pid {
    open spec fn obeys_eq_spec() -> bool {
        true
    }

    open spec fn eq_spec(&self, other: &Pid) -> bool {
        self@.address == other@.address && self@.id == other@.id && self@.request_id
            == other@.request_id
    }
}

impl Default for Pid {
    /// The all-empty identifier: no host, no name, no correlation tag.
    fn default() -> (r: Pid)
        ensures
            r@.address.len() == 0,
            r@.id.len() == 0,
            r@.request_id == 0,
    {
        Pid { address: String::new(), id: String::new(), request_id: 0 }
    }
}

} // verus!
