use sum_contract::{
    ContractName, LazyCell, LazyContract, MyContract, SlotStorage, SumError, Value, VALUE1_SLOT,
    VALUE2_SLOT,
};

#[test]
fn deployed_unsigned_contract_sums_three_and_seven() {
    assert_eq!(ContractName::new().get_sum(), Ok(10));
}

#[test]
fn deployed_signed_contract_sums_three_and_two() {
    assert_eq!(MyContract::new().get_sum(), Ok(5));
}

#[test]
fn eight_and_nine_sum_to_seventeen() {
    assert_eq!(ContractName::from_values(8, 9).get_sum(), Ok(17));
    assert_eq!(MyContract::from_values(8, 9).get_sum(), Ok(17));
}

#[test]
fn three_and_seven_sum_to_ten() {
    assert_eq!(ContractName::from_values(3, 7).get_sum(), Ok(10));
}

#[test]
fn one_and_two_sum_to_three() {
    assert_eq!(ContractName::from_values(1, 2).get_sum(), Ok(3));
    assert_eq!(MyContract::from_values(1, 2).get_sum(), Ok(3));
}

#[test]
fn three_and_two_sum_to_five() {
    assert_eq!(MyContract::from_values(3, 2).get_sum(), Ok(5));
}

#[test]
fn largest_unsigned_values_overflow() {
    assert_eq!(
        ContractName::from_values(u32::MAX, u32::MAX).get_sum(),
        Err(SumError::ArithmeticOverflow)
    );
    assert_eq!(ContractName::from_values(u32::MAX, 1).get_sum(), Err(SumError::ArithmeticOverflow));
    assert_eq!(ContractName::from_values(u32::MAX, 0).get_sum(), Ok(u32::MAX));
}

#[test]
fn largest_signed_values_overflow() {
    assert_eq!(
        MyContract::from_values(i32::MAX, i32::MAX).get_sum(),
        Err(SumError::ArithmeticOverflow)
    );
    assert_eq!(
        MyContract::from_values(i32::MIN, i32::MIN).get_sum(),
        Err(SumError::ArithmeticOverflow)
    );
    assert_eq!(MyContract::from_values(i32::MIN, i32::MAX).get_sum(), Ok(-1));
    assert_eq!(MyContract::from_values(-4, 1).get_sum(), Ok(-3));
}

#[test]
fn repeated_queries_agree() {
    let c = ContractName::from_values(8, 9);
    assert_eq!(c.get_sum(), c.get_sum());
    let m = MyContract::from_values(i32::MAX, 1);
    assert_eq!(m.get_sum(), m.get_sum());
    let mut storage = SlotStorage::new();
    let mut lazy = LazyContract::instantiate(&mut storage, 8, 9);
    let first = lazy.get_sum(&storage);
    let second = lazy.get_sum(&storage);
    assert_eq!(first, Ok(17));
    assert_eq!(first, second);
}

#[test]
fn lazy_and_direct_contracts_agree() {
    let pairs = [(8, 9), (3, 7), (1, 2), (3, 2), (-5, 5), (i32::MAX, 1), (i32::MIN, -1), (i32::MAX, i32::MIN)];
    for (a, b) in pairs {
        let mut storage = SlotStorage::new();
        let mut lazy = LazyContract::instantiate(&mut storage, a, b);
        assert_eq!(lazy.get_sum(&storage), MyContract::from_values(a, b).get_sum());
    }
}

#[test]
fn lazy_contract_persists_its_values() {
    let mut storage = SlotStorage::new();
    let _ = LazyContract::instantiate(&mut storage, 8, 9);
    assert_eq!(storage.get(VALUE1_SLOT), Some(8));
    assert_eq!(storage.get(VALUE2_SLOT), Some(9));
    assert_eq!(storage.get(2), None);
}

#[test]
fn lazy_contract_fails_on_empty_slot() {
    let mut storage = SlotStorage::new();
    let mut lazy = LazyContract::instantiate(&mut storage, 1, 2);
    let empty = SlotStorage::new();
    assert_eq!(lazy.get_sum(&empty), Err(SumError::StorageUnavailable));
    let mut half = SlotStorage::new();
    half.set(VALUE1_SLOT, 1);
    assert_eq!(lazy.get_sum(&half), Err(SumError::StorageUnavailable));
}

#[test]
fn lazy_contract_overflow() {
    let mut storage = SlotStorage::new();
    let mut lazy = LazyContract::instantiate(&mut storage, i32::MAX, i32::MAX);
    assert_eq!(lazy.get_sum(&storage), Err(SumError::ArithmeticOverflow));
}

#[test]
fn lazy_cell_caches_first_load() {
    let mut storage = SlotStorage::new();
    storage.set(4, 11u32);
    let mut cell = LazyCell::new(4);
    assert_eq!(cell.slot(), 4);
    assert_eq!(cell.load(&storage), Ok(11));
    assert_eq!(cell.load(&storage), Ok(11));
    let mut missing = LazyCell::<u32>::new(5);
    assert_eq!(missing.load(&storage), Err(SumError::StorageUnavailable));
}

#[test]
fn slot_storage_set_and_get() {
    let mut storage = SlotStorage::new();
    assert_eq!(storage.get(0), None);
    storage.set(3, 7i32);
    storage.set(0, 1);
    storage.set(3, 9);
    assert_eq!(storage.get(0), Some(1));
    assert_eq!(storage.get(1), None);
    assert_eq!(storage.get(3), Some(9));
    assert_eq!(storage.get(usize::MAX), None);
}

#[test]
fn value_cell_holds_its_value() {
    assert_eq!(Value::new(42u32).get(), 42);
    assert_eq!(Value::new(-1i32).get(), -1);
}

#[test]
fn deployed_values_are_readable() {
    let c = ContractName::new();
    assert_eq!((c.value1(), c.value2()), (3, 7));
    let m = MyContract::from_values(-2, 9);
    assert_eq!((m.value1(), m.value2()), (-2, 9));
}
