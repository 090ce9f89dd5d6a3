use vstd::prelude::*;

verus! {

/// Why a query on a contract could not produce its answer.
#[derive(Debug, Clone, Copy, PartialEq, Eq, Structural)]
pub enum SumError {
    /// The sum of the two stored values does not fit in their type.
    ArithmeticOverflow,
    /// A storage slot that a lazily loaded field reads from holds no value.
    StorageUnavailable,
}

} // verus!
