use vstd::prelude::*;

verus! {

/// Bounded store of produced data units.
#[derive(Debug, Clone, Copy)]
pub struct DataStorage {
    pub capacity: u64,
    pub stored: u64,
}

impl DataStorage {
    /// The storage keeps at most its capacity.
    pub open spec fn wf(&self) -> bool {
        self.stored <= self.capacity
    }

    /// Room left, in data units.
    pub open spec fn free_spec(&self) -> nat {
        if self.stored <= self.capacity {
            (self.capacity - self.stored) as nat
        } else {
            0
        }
    }

    pub fn new(capacity: u64) -> (r: Self)
        ensures
            r.capacity == capacity,
            r.stored == 0,
            r.wf(),
    {
        DataStorage { capacity, stored: 0 }
    }

    /// Stores as much of `amount` as fits and returns how much was absorbed.
    pub fn store(&mut self, amount: u64) -> (absorbed: u64)
        ensures
            absorbed == vstd::math::min(amount as int, old(self).free_spec() as int),
            final(self).stored == old(self).stored + absorbed,
            final(self).capacity == old(self).capacity,
            final(self).free_spec() + absorbed == old(self).free_spec(),
            amount >= old(self).free_spec() && old(self).wf() ==> final(self).stored
                == final(self).capacity,
            old(self).wf() ==> final(self).wf(),
    {
        let free = self.free_capacity();
        let to_store = if amount < free { amount } else { free };
        self.stored = self.stored + to_store;
        to_store
    }

    pub fn free_capacity(&self) -> (r: u64)
        ensures
            r == self.free_spec(),
    {
        self.capacity.saturating_sub(self.stored)
    }

    /// Grows the capacity by `extra` units.
    pub fn expand(&mut self, extra: u64)
        requires
            old(self).capacity + extra <= u64::MAX,
        ensures
            final(self).capacity == old(self).capacity + extra,
            final(self).stored == old(self).stored,
            old(self).wf() ==> final(self).wf(),
    {
        self.capacity = self.capacity + extra;
    }
}

} // verus!
