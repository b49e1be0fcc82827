use vstd::prelude::*;

verus! {

/// The number of records asked for by the one listing call of a deletion run.
pub const LISTING_PAGE_SIZE: u32 = 1000;

/// An IPv6 address as its 128-bit value, most significant group first.
#[derive(Clone, Copy, Debug, PartialEq, Eq, Structural)]
pub struct Ipv6Address {
    pub bits: u128,
}

/// What a record points to. Only AAAA records are ever written.
#[derive(Clone, Copy, Debug, PartialEq, Eq, Structural)]
pub enum RecordContent {
    Aaaa { address: Ipv6Address },
}

/// A record as the provider lists it: its identifier and its name.
#[derive(Clone, Debug)]
pub struct ExistingRecord {
    pub id: String,
    pub name: String,
}

/// A call that creates one record. TTL, priority and proxying are left to the
/// provider's defaults.
#[derive(Clone, Debug)]
pub struct CreateRequest {
    pub zone_id: String,
    pub name: String,
    pub content: RecordContent,
}

/// A call that deletes the record with the given identifier.
#[derive(Clone, Debug)]
pub struct DeleteRequest {
    pub zone_id: String,
    pub record_id: String,
}

/// A call that lists one page of the zone's records.
#[derive(Clone, Debug)]
pub struct ListRequest {
    pub zone_id: String,
    pub per_page: u32,
}

impl ExistingRecord {
    pub fn new(id: String, name: String) -> (r: ExistingRecord)
        ensures
            r.id == id,
            r.name == name,
    {
        ExistingRecord { id, name }
    }
}

} // verus!
