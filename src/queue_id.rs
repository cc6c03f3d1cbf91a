//! Queue ids: one process-wide counter, seeded past the highest id already
//! persisted, so that ids are unique and increase in the order issued.
use vstd::prelude::*;

verus! {

/// The source of queue ids.
pub struct QueueIdGenerator {
    next: u64,
}

impl View for QueueIdGenerator {
    type V = u64;

    /// The id that the next call to `generate` returns.
    closed spec fn view(&self) -> u64 {
        self.next
    }
}

impl QueueIdGenerator {
    /// A generator whose first id follows `highest_persisted`.
    pub fn new(highest_persisted: u64) -> (r: QueueIdGenerator)
        requires
            highest_persisted < u64::MAX,
        ensures
            r@ == highest_persisted + 1,
    {
        QueueIdGenerator { next: highest_persisted + 1 }
    }

    /// Issues the next id; `None` once every id has been issued. An issued
    /// id is below the generator's next one, so ids issued later are
    /// greater.
    pub fn generate(&mut self) -> (r: Option<u64>)
        ensures
            r matches Some(id) ==> id < final(self)@ && old(self)@ <= id,
            old(self)@ < u64::MAX ==> r == Some(old(self)@) && final(self)@ == old(self)@ + 1,
            old(self)@ == u64::MAX ==> r is None && final(self)@ == old(self)@,
    {
        if self.next == u64::MAX {
            None
        } else {
            let id = self.next;
            self.next = self.next + 1;
            Some(id)
        }
    }
}

} // verus!
