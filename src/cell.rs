use vstd::prelude::*;

use crate::error::SumError;
use crate::storage::SlotStorage;

verus! {

/// A field wrapper that always holds its value; reading it is a plain copy.
pub struct Value<T> {
    value: T,
}

impl<T: Copy> Value<T> {
    /// The value the cell holds.
    pub closed spec fn held(&self) -> T {
        self.value
    }

    pub fn new(value: T) -> (r: Self)
        ensures
            r.held() == value,
    {
        Value { value }
    }

    pub fn get(&self) -> (r: T)
        ensures
            r == self.held(),
    {
        self.value
    }
}

/// A field wrapper bound to one storage slot: the value is fetched from the
/// slot on first access and cached for later accesses.
pub struct LazyCell<T> {
    slot: usize,
    cached: Option<T>,
}

impl<T: Copy> LazyCell<T> {
    /// The storage slot the cell reads from.
    pub closed spec fn slot_spec(&self) -> int {
        self.slot as int
    }

    /// Whether a value has been fetched and cached.
    pub closed spec fn is_loaded(&self) -> bool {
        self.cached is Some
    }

    /// A cached value, if any, is what the cell's slot holds in `storage`.
    pub closed spec fn coherent_with(&self, storage: SlotStorage<T>) -> bool {
        match self.cached {
            Some(v) => storage.read(self.slot as int) == Some(v),
            None => true,
        }
    }

    /// What loading the cell from `storage` yields.
    pub open spec fn load_spec(&self, storage: SlotStorage<T>) -> Result<T, SumError> {
        match storage.read(self.slot_spec()) {
            Some(v) => Ok(v),
            None => Err(SumError::StorageUnavailable),
        }
    }

    /// A cell for `slot` that has fetched nothing yet.
    pub fn new(slot: usize) -> (r: Self)
        ensures
            r.slot_spec() == slot,
            !r.is_loaded(),
            forall|s: SlotStorage<T>| #[trigger] r.coherent_with(s),
    {
        LazyCell { slot, cached: None }
    }

    pub fn slot(&self) -> (r: usize)
        ensures
            r == self.slot_spec(),
    {
        self.slot
    }

    /// Returns the cell's value, fetching it from `storage` on first access.
    /// Fails with `StorageUnavailable` when the slot is empty; no default is
    /// ever substituted.
    pub fn load(&mut self, storage: &SlotStorage<T>) -> (r: Result<T, SumError>)
        requires
            old(self).coherent_with(*storage),
        ensures
            r == old(self).load_spec(*storage),
            final(self).slot_spec() == old(self).slot_spec(),
            final(self).coherent_with(*storage),
            r is Ok ==> final(self).is_loaded(),
    {
        match self.cached {
            Some(v) => Ok(v),
            None => match storage.get(self.slot) {
                Some(v) => {
                    self.cached = Some(v);
                    Ok(v)
                },
                None => Err(SumError::StorageUnavailable),
            },
        }
    }
}

} // verus!
