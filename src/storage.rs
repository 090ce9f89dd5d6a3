use vstd::prelude::*;

verus! {

/// A host's persistent storage: numbered slots, each empty or holding one value.
pub struct SlotStorage<T> {
    slots: Vec<Option<T>>,
}

impl<T: Copy> SlotStorage<T> {
    /// What slot `slot` holds; a slot beyond the ones ever written is empty.
    pub closed spec fn read(&self, slot: int) -> Option<T> {
        if 0 <= slot < self.slots@.len() {
            self.slots@[slot]
        } else {
            None
        }
    }

    /// Storage in which every slot is empty.
    pub fn new() -> (r: Self)
        ensures
            forall|k: int| #[trigger] r.read(k) == None::<T>,
    {
        SlotStorage { slots: Vec::new() }
    }

    /// The value stored in `slot`, if any.
    pub fn get(&self, slot: usize) -> (r: Option<T>)
        ensures
            r == self.read(slot as int),
    {
        if slot < self.slots.len() {
            self.slots[slot]
        } else {
            None
        }
    }

    /// Stores `value` in `slot`, leaving every other slot as it was.
    pub fn set(&mut self, slot: usize, value: T)
        requires
            slot < usize::MAX,
        ensures
            final(self).read(slot as int) == Some(value),
            forall|k: int| k != slot ==> #[trigger] final(self).read(k) == old(self).read(k),
    {
        while self.slots.len() <= slot
            invariant
                slot < usize::MAX,
                forall|k: int| #[trigger] self.read(k) == old(self).read(k),
            decreases slot + 1 - self.slots.len(),
        {
            let ghost before = *self;
            self.slots.push(None);
            assert forall|k: int| #[trigger] self.read(k) == before.read(k) by {
                if k == before.slots@.len() {
                    assert(self.slots@[k] == None::<T>);
                }
            }
        }
        let ghost grown = *self;
        self.slots.set(slot, Some(value));
        assert forall|k: int| k != slot implies #[trigger] self.read(k) == grown.read(k) by {}
    }
}

} // verus!
