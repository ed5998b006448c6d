//! Issues the identifiers of drawable entities.

use vstd::prelude::*;

verus! {

/// A counter that hands out identifiers in increasing order, starting at 1.
pub struct MasterIdGenerator {
    current_id: u64,
}

impl MasterIdGenerator {
    /// The identifier that the next call of `generate_id` returns.
    pub closed spec fn next_id(&self) -> nat {
        self.current_id as nat
    }

    /// A generator whose first identifier is 1.
    pub fn new() -> (generator: Self)
        ensures
            generator.next_id() == 1,
    {
        MasterIdGenerator { current_id: 1 }
    }

    /// How many identifiers the generator can still hand out.
    pub fn remaining(&self) -> (count: u64)
        ensures
            count == u64::MAX - self.next_id(),
    {
        u64::MAX - self.current_id
    }

    fn increment_id(&mut self)
        requires
            old(self).next_id() < u64::MAX,
        ensures
            final(self).next_id() == old(self).next_id() + 1,
    {
        self.current_id += 1;
    }

    /// Returns the current identifier and moves on to the next one.
    pub fn generate_id(&mut self) -> (id: u64)
        requires
            old(self).next_id() < u64::MAX,
        ensures
            id == old(self).next_id(),
            final(self).next_id() == old(self).next_id() + 1,
    {
        let new_id: u64 = self.current_id;
        self.increment_id();
        new_id
    }

    /// Hands out the next `count` identifiers, in order. Called on a new
    /// generator it returns 1, 2, .. up to `count`: no identifier comes
    /// twice.
    pub fn generate_ids(&mut self, count: usize) -> (ids: Vec<u64>)
        requires
            old(self).next_id() + count <= u64::MAX,
        ensures
            ids@.len() == count,
            forall|i: int| 0 <= i < count ==> #[trigger] ids@[i] == old(self).next_id() + i,
            final(self).next_id() == old(self).next_id() + count,
    {
        let mut ids: Vec<u64> = Vec::new();
        while ids.len() < count
            invariant
                ids@.len() <= count,
                old(self).next_id() + count <= u64::MAX,
                self.next_id() == old(self).next_id() + ids@.len(),
                forall|i: int| 0 <= i < ids@.len() ==> #[trigger] ids@[i] == old(self).next_id() + i,
            decreases count - ids@.len(),
        {
            let id = self.generate_id();
            ids.push(id);
        }
        ids
    }
}

} // verus!
