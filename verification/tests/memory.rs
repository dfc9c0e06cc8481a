use do_core1::memory::Memory;
use do_core1::{Error, MAX_MEMORY_SIZE};

#[test]
fn test_store_and_load() -> Result<(), Error> {
    let mut memory = Memory::new();

    memory.store(0x00, 0x01)?;
    assert_eq!(memory.load(0x00)?, 0x01);

    Ok(())
}

#[test]
fn test_store_out_of_range() -> Result<(), Error> {
    let mut memory = Memory::new();
    assert!(memory.store(MAX_MEMORY_SIZE + 0x1, 0x00).is_err());
    Ok(())
}

#[test]
fn test_store_u32() -> Result<(), Error> {
    let mut memory = Memory::new();
    assert!(memory.store(0xff, u32::max_value() as usize).is_err());
    Ok(())
}

#[test]
fn test_load_out_of_range() -> Result<(), Error> {
    let memory = Memory::new();
    assert!(memory.load(MAX_MEMORY_SIZE + 0x1).is_err());
    Ok(())
}

#[test]
fn test_new_memory_loads_zero_everywhere() {
    let memory = Memory::new();
    for addr in 0..MAX_MEMORY_SIZE {
        assert_eq!(memory.load(addr), Ok(0));
    }
    assert!(memory.dump().is_empty());
}

#[test]
fn test_store_then_load_every_address() {
    let mut memory = Memory::new();
    for addr in 0..MAX_MEMORY_SIZE {
        let value = (addr * 7 + 3) % 256;
        assert_eq!(memory.store(addr, value), Ok(()));
        assert_eq!(memory.load(addr), Ok(value as u8));
    }
    for addr in 0..MAX_MEMORY_SIZE {
        assert_eq!(memory.load(addr), Ok(((addr * 7 + 3) % 256) as u8));
    }
}

#[test]
fn test_store_overwrites() {
    let mut memory = Memory::new();
    assert_eq!(memory.store(0x10, 0xaa), Ok(()));
    assert_eq!(memory.store(0x10, 0x55), Ok(()));
    assert_eq!(memory.load(0x10), Ok(0x55));
}

#[test]
fn test_store_keeps_other_slots() {
    let mut memory = Memory::new();
    assert_eq!(memory.store(0x20, 0x11), Ok(()));
    assert_eq!(memory.store(0x21, 0x22), Ok(()));
    assert_eq!(memory.load(0x20), Ok(0x11));
    assert_eq!(memory.load(0x1f), Ok(0x00));
}

#[test]
fn test_address_at_capacity_is_out_of_range() {
    let mut memory = Memory::new();
    assert_eq!(
        memory.store(MAX_MEMORY_SIZE, 0x01),
        Err(Error::AddressOutOfRange(MAX_MEMORY_SIZE))
    );
    assert_eq!(memory.load(MAX_MEMORY_SIZE), Err(Error::AddressOutOfRange(MAX_MEMORY_SIZE)));
    assert_eq!(memory.store(MAX_MEMORY_SIZE - 1, 0x01), Ok(()));
    assert_eq!(memory.load(MAX_MEMORY_SIZE - 1), Ok(0x01));
}

#[test]
fn test_address_far_out_of_range() {
    let mut memory = Memory::new();
    assert_eq!(memory.store(usize::MAX, 0), Err(Error::AddressOutOfRange(usize::MAX)));
    assert_eq!(memory.load(usize::MAX), Err(Error::AddressOutOfRange(usize::MAX)));
    assert!(memory.dump().is_empty());
}

#[test]
fn test_value_out_of_range() {
    let mut memory = Memory::new();
    assert_eq!(memory.store(0x05, 0xff), Ok(()));
    assert_eq!(memory.store(0x05, 0x100), Err(Error::ValueOutOfRange(0x100)));
    // a rejected store leaves the slot as it was
    assert_eq!(memory.load(0x05), Ok(0xff));
}

#[test]
fn test_address_is_checked_before_value() {
    let mut memory = Memory::new();
    assert_eq!(
        memory.store(MAX_MEMORY_SIZE + 5, 0x1000),
        Err(Error::AddressOutOfRange(MAX_MEMORY_SIZE + 5))
    );
}

#[test]
fn test_dump_lists_non_zero_slots_in_order() {
    let mut memory = Memory::new();
    assert_eq!(memory.store(0x300, 0x02), Ok(()));
    assert_eq!(memory.store(0x001, 0xff), Ok(()));
    assert_eq!(memory.store(0xfff, 0x10), Ok(()));
    assert_eq!(memory.store(0x123, 0x00), Ok(()));
    assert_eq!(memory.dump(), vec![(0x001, 0xff), (0x300, 0x02), (0xfff, 0x10)]);
    assert_eq!(memory.store(0x300, 0x00), Ok(()));
    assert_eq!(memory.dump(), vec![(0x001, 0xff), (0xfff, 0x10)]);
}
