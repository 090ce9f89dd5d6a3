use vstd::prelude::*;

use crate::cell::{LazyCell, Value};
use crate::error::SumError;
use crate::storage::SlotStorage;

verus! {

/// The checked sum of two `u32` values: the sum itself when it fits,
/// `ArithmeticOverflow` otherwise.
pub open spec fn u32_sum(a: u32, b: u32) -> Result<u32, SumError> {
    if a + b <= u32::MAX {
        Ok((a + b) as u32)
    } else {
        Err(SumError::ArithmeticOverflow)
    }
}

/// The checked sum of two `i32` values: the sum itself when it fits,
/// `ArithmeticOverflow` otherwise.
pub open spec fn i32_sum(a: i32, b: i32) -> Result<i32, SumError> {
    if i32::MIN <= a + b <= i32::MAX {
        Ok((a + b) as i32)
    } else {
        Err(SumError::ArithmeticOverflow)
    }
}

/// The slot that a lazily loaded contract keeps its first value in.
pub const VALUE1_SLOT: usize = 0;

/// The slot that a lazily loaded contract keeps its second value in.
pub const VALUE2_SLOT: usize = 1;

/// A contract whose two unsigned fields sit in always-loaded cells.
pub struct ContractName {
    value1: Value<u32>,
    value2: Value<u32>,
}

impl ContractName {
    pub closed spec fn value1_spec(&self) -> u32 {
        self.value1.held()
    }

    pub closed spec fn value2_spec(&self) -> u32 {
        self.value2.held()
    }

    /// The contract as it is instantiated on deployment, holding 3 and 7.
    pub fn new() -> (r: Self)
        ensures
            r.value1_spec() == 3,
            r.value2_spec() == 7,
    {
        Self::from_values(3, 7)
    }

    /// A contract instantiated with the given values.
    pub fn from_values(value1: u32, value2: u32) -> (r: Self)
        ensures
            r.value1_spec() == value1,
            r.value2_spec() == value2,
    {
        ContractName { value1: Value::new(value1), value2: Value::new(value2) }
    }

    pub fn value1(&self) -> (r: u32)
        ensures
            r == self.value1_spec(),
    {
        self.value1.get()
    }

    pub fn value2(&self) -> (r: u32)
        ensures
            r == self.value2_spec(),
    {
        self.value2.get()
    }

    /// The sum of the two stored values, or `ArithmeticOverflow` when it
    /// does not fit in a `u32`. Reads only, so every call gives the same answer.
    pub fn get_sum(&self) -> (r: Result<u32, SumError>)
        ensures
            r == u32_sum(self.value1_spec(), self.value2_spec()),
    {
        match self.value1.get().checked_add(self.value2.get()) {
            Some(s) => Ok(s),
            None => Err(SumError::ArithmeticOverflow),
        }
    }
}

/// A contract whose two signed fields are stored inline.
pub struct MyContract {
    value1: i32,
    value2: i32,
}

impl MyContract {
    pub closed spec fn value1_spec(&self) -> i32 {
        self.value1
    }

    pub closed spec fn value2_spec(&self) -> i32 {
        self.value2
    }

    /// The contract as it is instantiated on deployment, holding 3 and 2.
    pub fn new() -> (r: Self)
        ensures
            r.value1_spec() == 3,
            r.value2_spec() == 2,
    {
        Self::from_values(3, 2)
    }

    /// A contract instantiated with the given values.
    pub fn from_values(value1: i32, value2: i32) -> (r: Self)
        ensures
            r.value1_spec() == value1,
            r.value2_spec() == value2,
    {
        MyContract { value1, value2 }
    }

    pub fn value1(&self) -> (r: i32)
        ensures
            r == self.value1_spec(),
    {
        self.value1
    }

    pub fn value2(&self) -> (r: i32)
        ensures
            r == self.value2_spec(),
    {
        self.value2
    }

    /// The sum of the two stored values, or `ArithmeticOverflow` when it
    /// does not fit in an `i32`. Reads only, so every call gives the same answer.
    pub fn get_sum(&self) -> (r: Result<i32, SumError>)
        ensures
            r == i32_sum(self.value1_spec(), self.value2_spec()),
    {
        match self.value1.checked_add(self.value2) {
            Some(s) => Ok(s),
            None => Err(SumError::ArithmeticOverflow),
        }
    }
}

/// The answer of a query that finds `stored1` and `stored2` in the two slots:
/// `StorageUnavailable` if either slot is empty, else their checked sum.
pub open spec fn stored_sum(stored1: Option<i32>, stored2: Option<i32>) -> Result<i32, SumError> {
    match (stored1, stored2) {
        (Some(a), Some(b)) => i32_sum(a, b),
        _ => Err(SumError::StorageUnavailable),
    }
}

/// A contract whose two signed fields live in host storage and are fetched
/// only when a query first reads them.
pub struct LazyContract {
    value1: LazyCell<i32>,
    value2: LazyCell<i32>,
}

impl LazyContract {
    /// The slot the first value is read from.
    pub closed spec fn slot1(&self) -> int {
        self.value1.slot_spec()
    }

    /// The slot the second value is read from.
    pub closed spec fn slot2(&self) -> int {
        self.value2.slot_spec()
    }

    /// Whatever the cells have cached agrees with `storage`.
    pub closed spec fn coherent_with(&self, storage: SlotStorage<i32>) -> bool {
        self.value1.coherent_with(storage) && self.value2.coherent_with(storage)
    }

    /// What a query answers when the host storage is `storage`.
    pub open spec fn sum_in(&self, storage: SlotStorage<i32>) -> Result<i32, SumError> {
        stored_sum(storage.read(self.slot1()), storage.read(self.slot2()))
    }

    /// Instantiates the contract: persists `value1` and `value2` in their
    /// slots of `storage` and returns a contract that has fetched nothing yet.
    pub fn instantiate(storage: &mut SlotStorage<i32>, value1: i32, value2: i32) -> (r: Self)
        ensures
            r.slot1() == VALUE1_SLOT,
            r.slot2() == VALUE2_SLOT,
            final(storage).read(VALUE1_SLOT as int) == Some(value1),
            final(storage).read(VALUE2_SLOT as int) == Some(value2),
            forall|k: int|
                k != VALUE1_SLOT && k != VALUE2_SLOT ==> #[trigger] final(storage).read(k)
                    == old(storage).read(k),
            r.coherent_with(*final(storage)),
    {
        storage.set(VALUE1_SLOT, value1);
        storage.set(VALUE2_SLOT, value2);
        LazyContract { value1: LazyCell::new(VALUE1_SLOT), value2: LazyCell::new(VALUE2_SLOT) }
    }

    /// The sum of the two stored values, loading each on first access.
    /// Fails with `StorageUnavailable` when a slot is empty (the first value
    /// is read first) and with `ArithmeticOverflow` when the sum does not fit.
    pub fn get_sum(&mut self, storage: &SlotStorage<i32>) -> (r: Result<i32, SumError>)
        requires
            old(self).coherent_with(*storage),
        ensures
            r == old(self).sum_in(*storage),
            final(self).slot1() == old(self).slot1(),
            final(self).slot2() == old(self).slot2(),
            final(self).coherent_with(*storage),
    {
        let a = match self.value1.load(storage) {
            Ok(a) => a,
            Err(e) => return Err(e),
        };
        let b = match self.value2.load(storage) {
            Ok(b) => b,
            Err(e) => return Err(e),
        };
        match a.checked_add(b) {
            Some(s) => Ok(s),
            None => Err(SumError::ArithmeticOverflow),
        }
    }
}

/// Querying a lazily loaded contract does not change its answer: the contract
/// left by a query, asked again against the same storage, answers as before.
pub proof fn lemma_lazy_query_repeatable(
    before: LazyContract,
    after: LazyContract,
    storage: SlotStorage<i32>,
)
    requires
        after.slot1() == before.slot1(),
        after.slot2() == before.slot2(),
    ensures
        after.sum_in(storage) == before.sum_in(storage),
{
}

/// A lazily loaded contract whose slots hold the values that a directly
/// stored contract holds gives the same answer to every query.
pub proof fn lemma_lazy_matches_direct(
    lazy: LazyContract,
    direct: MyContract,
    storage: SlotStorage<i32>,
)
    requires
        storage.read(lazy.slot1()) == Some(direct.value1_spec()),
        storage.read(lazy.slot2()) == Some(direct.value2_spec()),
    ensures
        lazy.sum_in(storage) == i32_sum(direct.value1_spec(), direct.value2_spec()),
{
}

} // verus!
