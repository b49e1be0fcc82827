use vstd::prelude::*;
use crate::records::{CreateRequest, Ipv6Address, RecordContent};

verus! {

/// The call that creates an AAAA record for `name` pointing at `address`.
pub open spec fn creation_for(zone_id: String, address: Ipv6Address, name: String) -> CreateRequest {
    CreateRequest { zone_id: zone_id, name: name, content: RecordContent::Aaaa { address: address } }
}

/// The create calls for a list of names: one per name, in the order given.
pub open spec fn creations_for(zone_id: String, address: Ipv6Address, names: Seq<String>) -> Seq<CreateRequest> {
    names.map_values(|n: String| creation_for(zone_id, address, n))
}

/// One create call per name, in the order of the names, each an AAAA record
/// in the given zone that points at the given address.
pub proof fn lemma_creations_follow_names(zone_id: String, address: Ipv6Address, names: Seq<String>)
    ensures
        creations_for(zone_id, address, names).len() == names.len(),
        forall|i: int| 0 <= i < names.len() ==> {
            let c = #[trigger] creations_for(zone_id, address, names)[i];
            &&& c.zone_id == zone_id
            &&& c.name == names[i]
            &&& c.content == (RecordContent::Aaaa { address: address })
        },
{
}

pub fn creation_request(zone_id: &String, address: Ipv6Address, name: &String) -> (r: CreateRequest)
    ensures
        r == creation_for(*zone_id, address, *name),
{
    CreateRequest { zone_id: zone_id.clone(), name: name.clone(), content: RecordContent::Aaaa { address } }
}

/// The next thing a creation run asks of its caller.
#[derive(Clone, Debug)]
pub enum CreateAction {
    /// Make this call and report it with `record_creation`.
    Create(CreateRequest),
    /// Every name has its record.
    Finished,
    /// A call failed: the run stops here and the remaining names are left.
    Abort,
}

/// A run that creates an AAAA record for each name, one after another,
/// and stops at the first call that fails.
///
/// No name is checked for an existing record first: running it twice makes
/// each record twice.
pub struct CreateSession {
    zone_id: String,
    address: Ipv6Address,
    names: Vec<String>,
    next: usize,
    failed: bool,
}

impl CreateSession {
    pub closed spec fn zone_id(&self) -> String {
        self.zone_id
    }

    pub closed spec fn address(&self) -> Ipv6Address {
        self.address
    }

    pub closed spec fn names(&self) -> Seq<String> {
        self.names@
    }

    /// How many create calls have been made.
    pub closed spec fn made(&self) -> nat {
        self.next as nat
    }

    /// The last call made failed.
    pub closed spec fn failed(&self) -> bool {
        self.failed
    }

    pub closed spec fn wf(&self) -> bool {
        &&& self.next <= self.names@.len()
        &&& self.failed ==> self.next > 0
    }

    /// All the create calls of the run, made or not.
    pub open spec fn all_creations(&self) -> Seq<CreateRequest> {
        creations_for(self.zone_id(), self.address(), self.names())
    }

    /// The create calls issued so far, in order.
    pub open spec fn issued(&self) -> Seq<CreateRequest> {
        self.all_creations().take(self.made() as int)
    }

    pub fn new(zone_id: String, address: Ipv6Address, names: Vec<String>) -> (r: CreateSession)
        ensures
            r.wf(),
            r.zone_id() == zone_id,
            r.address() == address,
            r.names() == names@,
            r.made() == 0,
            !r.failed(),
    {
        CreateSession { zone_id, address, names, next: 0, failed: false }
    }

    /// What the caller is to do next: the create call for the next name, in
    /// the order given, until all are made or one has failed.
    pub fn next_action(&self) -> (a: CreateAction)
        requires
            self.wf(),
        ensures
            self.failed() ==> a == CreateAction::Abort,
            !self.failed() && self.made() < self.names().len() ==> a == CreateAction::Create(
                self.all_creations()[self.made() as int],
            ),
            !self.failed() && self.made() == self.names().len() ==> a == CreateAction::Finished
                && self.issued() == self.all_creations(),
    {
        if self.failed {
            CreateAction::Abort
        } else if self.next < self.names.len() {
            CreateAction::Create(creation_request(&self.zone_id, self.address, &self.names[self.next]))
        } else {
            assert(self.all_creations().take(self.made() as int) == self.all_creations());
            CreateAction::Finished
        }
    }

    /// Reports how the create call last asked for went. A failure ends the run.
    pub fn record_creation(&mut self, succeeded: bool)
        requires
            old(self).wf(),
            !old(self).failed(),
            old(self).made() < old(self).names().len(),
        ensures
            final(self).wf(),
            final(self).zone_id() == old(self).zone_id(),
            final(self).address() == old(self).address(),
            final(self).names() == old(self).names(),
            final(self).made() == old(self).made() + 1,
            final(self).failed() == !succeeded,
    {
        let total: usize = self.names.len();
        assert(self.next < total);
        self.next = self.next + 1;
        self.failed = !succeeded;
    }

    /// Whether a create call is awaiting its report.
    pub fn awaits_creation(&self) -> (r: bool)
        requires
            self.wf(),
        ensures
            r == (!self.failed() && self.made() < self.names().len()),
    {
        !self.failed && self.next < self.names.len()
    }

    /// How many create calls have been made.
    pub fn calls_made(&self) -> (r: usize)
        ensures
            r == self.made(),
    {
        self.next
    }
}

} // verus!
