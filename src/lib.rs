//! A storage-backed contract that answers one query: the checked sum of its
//! two stored integers. Fields are held inline, in always-loaded cells, or in
//! cells that fetch their value from a host storage slot on first access.

mod cell;
mod contract;
mod error;
mod storage;

pub use cell::{LazyCell, Value};
pub use contract::{
    i32_sum, lemma_lazy_matches_direct, lemma_lazy_query_repeatable, stored_sum, u32_sum,
    ContractName, LazyContract, MyContract, VALUE1_SLOT, VALUE2_SLOT,
};
pub use error::SumError;
pub use storage::SlotStorage;
