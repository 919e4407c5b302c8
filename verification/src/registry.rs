use crate::bounty::{Bounty, BountyId};
use vstd::prelude::*;

verus! {

/// The authoritative store of bounty records. Ids are dense sequence numbers
/// starting at 0, so the backing store is the sequence of all records ever
/// created, in creation order, and the creation counter is its length. The
/// registry validates nothing; every guard is the lifecycle engine's job.
pub struct Registry {
    records: Vec<Bounty>,
}

impl View for Registry {
    type V = Seq<Bounty>;

    closed spec fn view(&self) -> Seq<Bounty> {
        self.records@
    }
}

impl Registry {
    /// A registry holding no bounties.
    pub fn new() -> (registry: Registry)
        ensures
            registry@ == Seq::<Bounty>::empty(),
    {
        Registry { records: Vec::new() }
    }

    /// The id the next created bounty will get, which equals the number of
    /// bounties ever created.
    pub fn next_id(&self) -> (id: BountyId)
        ensures
            id == self@.len(),
    {
        self.records.len() as BountyId
    }

    /// Looks a record up by id; an unknown id yields `None`.
    pub fn get(&self, id: BountyId) -> (record: Option<Bounty>)
        ensures
            record == if id < self@.len() {
                Some(self@[id as int])
            } else {
                None::<Bounty>
            },
    {
        if id < self.records.len() as BountyId {
            Some(self.records[id as usize])
        } else {
            None
        }
    }

    /// Writes the record for `id`: overwrites an existing record, or creates
    /// the record for the next id.
    pub fn put(&mut self, id: BountyId, record: Bounty)
        requires
            id <= old(self)@.len(),
        ensures
            final(self)@ == if id < old(self)@.len() {
                old(self)@.update(id as int, record)
            } else {
                old(self)@.push(record)
            },
    {
        if id < self.records.len() as BountyId {
            self.records[id as usize] = record;
        } else {
            self.records.push(record);
        }
        proof {
            if id < old(self)@.len() {
                assert(self@ =~= old(self)@.update(id as int, record));
            }
        }
    }
}

} // verus!
