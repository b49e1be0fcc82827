use vstd::prelude::*;
use crate::records::{DeleteRequest, ExistingRecord, ListRequest, LISTING_PAGE_SIZE};

verus! {

/// `name` is, character for character, one of `names`.
pub open spec fn is_wanted(names: Seq<String>, name: Seq<char>) -> bool {
    exists|i: int| 0 <= i < names.len() && #[trigger] names[i]@ == name
}

/// The delete call for `record` if its name is wanted.
pub open spec fn deletion_of(zone_id: String, names: Seq<String>, record: ExistingRecord) -> Option<DeleteRequest> {
    if is_wanted(names, record.name@) {
        Some(DeleteRequest { zone_id: zone_id, record_id: record.id })
    } else {
        None
    }
}

/// The delete calls for a listing: one per listed record whose name is wanted,
/// in the order of the listing.
pub open spec fn deletions_for(zone_id: String, records: Seq<ExistingRecord>, names: Seq<String>) -> Seq<DeleteRequest> {
    records.filter_map(|r: ExistingRecord| deletion_of(zone_id, names, r))
}

/// Deletion targets exactly the wanted records: every delete call of a
/// listing carries the listed zone and the identifier of a listed record
/// whose name is one of the wanted names, and every such record gets a call.
pub proof fn lemma_deletions_target_wanted(zone_id: String, records: Seq<ExistingRecord>, names: Seq<String>)
    ensures
        forall|j: int| 0 <= j < deletions_for(zone_id, records, names).len() ==>
            exists|i: int| 0 <= i < records.len() && is_wanted(names, records[i].name@)
                && #[trigger] deletions_for(zone_id, records, names)[j] == (DeleteRequest { zone_id: zone_id, record_id: records[i].id }),
        forall|i: int| 0 <= i < records.len() && is_wanted(names, #[trigger] records[i].name@) ==>
            deletions_for(zone_id, records, names).contains(DeleteRequest { zone_id: zone_id, record_id: records[i].id }),
    decreases records.len(),
{
    if records.len() > 0 {
        let rest = records.drop_last();
        lemma_deletions_target_wanted(zone_id, rest, names);
        let d = deletions_for(zone_id, records, names);
        let e = deletions_for(zone_id, rest, names);
        let last = records.len() - 1;
        let x = DeleteRequest { zone_id: zone_id, record_id: records[last].id };
        if is_wanted(names, records[last].name@) {
            assert(d == e + seq![x]);
        } else {
            assert(d == e);
        }
        assert forall|j: int| 0 <= j < d.len() implies exists|i: int| 0 <= i < records.len() && is_wanted(names, records[i].name@)
            && #[trigger] d[j] == (DeleteRequest { zone_id: zone_id, record_id: records[i].id }) by {
            if j < e.len() {
                assert(e[j] == deletions_for(zone_id, rest, names)[j]);
                let i = choose|i: int| 0 <= i < rest.len() && is_wanted(names, rest[i].name@)
                    && #[trigger] e[j] == (DeleteRequest { zone_id: zone_id, record_id: rest[i].id });
                assert(rest[i] == records[i]);
                assert(d[j] == e[j]);
            } else {
                assert(d[j] == x);
            }
        }
        assert forall|i: int| 0 <= i < records.len() && is_wanted(names, #[trigger] records[i].name@) implies
            d.contains(DeleteRequest { zone_id: zone_id, record_id: records[i].id }) by {
            let x = DeleteRequest { zone_id: zone_id, record_id: records[i].id };
            if i < last {
                assert(rest[i] == records[i]);
                assert(rest[i].name@ == records[i].name@);
                assert(e.contains(x));
                let k = choose|k: int| 0 <= k < e.len() && e[k] == x;
                assert(d[k] == x);
            } else {
                assert(d[d.len() - 1] == x);
            }
        }
    }
}

/// A listed record whose name is not wanted is left alone: where identifiers
/// are unique within the listing, no delete call bears its identifier.
pub proof fn lemma_unwanted_untouched(zone_id: String, records: Seq<ExistingRecord>, names: Seq<String>, i: int)
    requires
        0 <= i < records.len(),
        !is_wanted(names, records[i].name@),
        forall|a: int, b: int| 0 <= a < records.len() && 0 <= b < records.len() && a != b ==>
            #[trigger] records[a].id != #[trigger] records[b].id,
    ensures
        forall|j: int| 0 <= j < deletions_for(zone_id, records, names).len() ==>
            (#[trigger] deletions_for(zone_id, records, names)[j]).record_id != records[i].id,
{
    lemma_deletions_target_wanted(zone_id, records, names);
}

/// Whether `name` is one of `names`, compared exactly.
pub fn is_wanted_name(names: &Vec<String>, name: &String) -> (r: bool)
    ensures
        r == is_wanted(names@, name@),
{
    let mut i: usize = 0;
    while i < names.len()
        invariant
            i <= names.len(),
            forall|j: int| 0 <= j < i ==> names@[j]@ != name@,
        decreases names.len() - i,
    {
        if names[i] == *name {
            return true;
        }
        i = i + 1;
    }
    false
}

/// The delete calls that a listing calls for: every listed record whose name
/// is wanted, in the order of the listing.
pub fn plan_deletions(zone_id: &String, records: &Vec<ExistingRecord>, names: &Vec<String>) -> (r: Vec<DeleteRequest>)
    ensures
        r@ == deletions_for(*zone_id, records@, names@),
{
    let mut planned: Vec<DeleteRequest> = Vec::new();
    let mut i: usize = 0;
    while i < records.len()
        invariant
            i <= records.len(),
            planned@ == deletions_for(*zone_id, records@.take(i as int), names@),
        decreases records.len() - i,
    {
        let record = &records[i];
        assert(records@.take(i + 1).drop_last() == records@.take(i as int));
        if is_wanted_name(names, &record.name) {
            planned.push(DeleteRequest { zone_id: zone_id.clone(), record_id: record.id.clone() });
        }
        i = i + 1;
    }
    assert(records@.take(records.len() as int) == records@);
    planned
}

/// A deletion lists one page of the zone's records
/// and deletes every listed record that has one of the wanted names.
pub fn listing_request(zone_id: &String) -> (r: ListRequest)
    ensures
        r.zone_id == *zone_id,
        r.per_page == LISTING_PAGE_SIZE,
{
    ListRequest { zone_id: zone_id.clone(), per_page: LISTING_PAGE_SIZE }
}

/// The next thing a deletion run asks of its caller.
#[derive(Clone, Debug)]
pub enum DeleteAction {
    /// Fetch the zone's records and report them with `record_listing`.
    List(ListRequest),
    /// Make this call and report it with `record_deletion`.
    Delete(DeleteRequest),
    /// Nothing is left to do.
    Finished,
    /// The listing failed: the run stops here.
    Abort,
}

/// A run that deletes the records of a zone that bear one of the wanted names.
///
/// It lists the zone once, then issues one delete call per matching record.
/// A failed listing stops the run; a failed delete is counted and the run
/// goes on with the next record.
pub struct DeleteSession {
    zone_id: String,
    names: Vec<String>,
    listed: bool,
    aborted: bool,
    planned: Vec<DeleteRequest>,
    next: usize,
    failures: usize,
}

impl DeleteSession {
    pub closed spec fn zone_id(&self) -> String {
        self.zone_id
    }

    pub closed spec fn names(&self) -> Seq<String> {
        self.names@
    }

    /// The listing has come back.
    pub closed spec fn listed(&self) -> bool {
        self.listed
    }

    /// The listing failed.
    pub closed spec fn aborted(&self) -> bool {
        self.aborted
    }

    /// The delete calls that the listing called for.
    pub closed spec fn planned(&self) -> Seq<DeleteRequest> {
        self.planned@
    }

    /// How many of the planned calls have been made.
    pub closed spec fn made(&self) -> nat {
        self.next as nat
    }

    /// How many of the calls made failed.
    pub closed spec fn failures(&self) -> nat {
        self.failures as nat
    }

    pub closed spec fn wf(&self) -> bool {
        &&& self.next <= self.planned@.len()
        &&& self.failures <= self.next
        &&& self.listed ==> self.names@.len() > 0 && !self.aborted
        &&& !self.listed ==> self.planned@.len() == 0 && self.next == 0
        &&& self.aborted ==> self.names@.len() > 0
    }

    /// The delete calls issued so far, in order.
    pub open spec fn issued(&self) -> Seq<DeleteRequest> {
        self.planned().take(self.made() as int)
    }

    pub fn new(zone_id: String, names: Vec<String>) -> (r: DeleteSession)
        ensures
            r.wf(),
            r.zone_id() == zone_id,
            r.names() == names@,
            !r.listed(),
            !r.aborted(),
            r.planned().len() == 0,
            r.made() == 0,
            r.failures() == 0,
    {
        DeleteSession { zone_id, names, listed: false, aborted: false, planned: Vec::new(), next: 0, failures: 0 }
    }

    /// What the caller is to do next. With no wanted names nothing is asked,
    /// not even the listing.
    pub fn next_action(&self) -> (a: DeleteAction)
        requires
            self.wf(),
        ensures
            self.aborted() ==> a == DeleteAction::Abort,
            !self.aborted() && self.names().len() == 0 ==> a == DeleteAction::Finished,
            !self.aborted() && self.names().len() > 0 && !self.listed() ==> a == DeleteAction::List(
                ListRequest { zone_id: self.zone_id(), per_page: LISTING_PAGE_SIZE },
            ),
            self.listed() && self.made() < self.planned().len() ==> a == DeleteAction::Delete(
                self.planned()[self.made() as int],
            ),
            self.listed() && self.made() == self.planned().len() ==> a == DeleteAction::Finished,
    {
        if self.aborted {
            DeleteAction::Abort
        } else if self.names.len() == 0 {
            DeleteAction::Finished
        } else if !self.listed {
            DeleteAction::List(listing_request(&self.zone_id))
        } else if self.next < self.planned.len() {
            let p = &self.planned[self.next];
            DeleteAction::Delete(DeleteRequest { zone_id: p.zone_id.clone(), record_id: p.record_id.clone() })
        } else {
            DeleteAction::Finished
        }
    }

    /// Reports the listing: the records of the page, or `None` if the call failed.
    pub fn record_listing(&mut self, listing: Option<Vec<ExistingRecord>>)
        requires
            old(self).wf(),
            !old(self).aborted(),
            !old(self).listed(),
            old(self).names().len() > 0,
        ensures
            final(self).wf(),
            final(self).zone_id() == old(self).zone_id(),
            final(self).names() == old(self).names(),
            final(self).made() == 0,
            final(self).failures() == 0,
            listing is None ==> final(self).aborted() && !final(self).listed()
                && final(self).planned().len() == 0,
            listing matches Some(records) ==> final(self).listed() && !final(self).aborted()
                && final(self).planned() == deletions_for(old(self).zone_id(), records@, old(self).names()),
    {
        match listing {
            Some(records) => {
                self.planned = plan_deletions(&self.zone_id, &records, &self.names);
                self.listed = true;
            },
            None => {
                self.aborted = true;
            },
        }
    }

    /// Reports how the delete call last asked for went. A failure is counted
    /// and does not stop the run.
    pub fn record_deletion(&mut self, succeeded: bool)
        requires
            old(self).wf(),
            old(self).listed(),
            old(self).made() < old(self).planned().len(),
        ensures
            final(self).wf(),
            final(self).zone_id() == old(self).zone_id(),
            final(self).names() == old(self).names(),
            final(self).listed(),
            !final(self).aborted(),
            final(self).planned() == old(self).planned(),
            final(self).made() == old(self).made() + 1,
            final(self).failures() == old(self).failures() + if succeeded { 0nat } else { 1nat },
    {
        let planned_len: usize = self.planned.len();
        assert(self.next < planned_len);
        self.next = self.next + 1;
        if !succeeded {
            self.failures = self.failures + 1;
        }
    }

    /// Whether a delete call is awaiting its report.
    pub fn awaits_deletion(&self) -> (r: bool)
        requires
            self.wf(),
        ensures
            r == (self.listed() && self.made() < self.planned().len()),
    {
        self.listed && self.next < self.planned.len()
    }

    /// Whether the listing is awaiting its report.
    pub fn awaits_listing(&self) -> (r: bool)
        requires
            self.wf(),
        ensures
            r == (!self.aborted() && !self.listed() && self.names().len() > 0),
    {
        !self.aborted && !self.listed && self.names.len() > 0
    }

    /// How many delete calls failed so far.
    pub fn failed_deletions(&self) -> (r: usize)
        ensures
            r == self.failures(),
    {
        self.failures
    }
}

} // verus!
