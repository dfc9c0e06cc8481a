//! Dense, bounds-checked memory: `MAX_MEMORY_SIZE` byte-wide slots, all
//! present from the start and holding zero until written.

use vstd::prelude::*;
use crate::{Error, MAX_MEMORY_SIZE};

verus! {

/// The memory of one engine: a fixed array of byte-wide slots.
#[derive(Debug)]
pub struct Memory {
    slots: [u8; MAX_MEMORY_SIZE],
}

impl View for Memory {
    type V = Seq<u8>;

    /// The slots as a sequence indexed by address.
    closed spec fn view(&self) -> Seq<u8> {
        self.slots@
    }
}

/// What `store(addr, value)` reports: the address is checked first, then the
/// value's width.
pub open spec fn store_outcome(addr: usize, value: usize) -> Result<(), Error> {
    if addr >= MAX_MEMORY_SIZE {
        Err(Error::AddressOutOfRange(addr))
    } else if value > u8::MAX {
        Err(Error::ValueOutOfRange(value))
    } else {
        Ok(())
    }
}

/// The slots after `store(addr, value)` on slots `mem`: one slot overwritten
/// where the store succeeds, nothing changed where it fails.
pub open spec fn stored(mem: Seq<u8>, addr: usize, value: usize) -> Seq<u8> {
    if store_outcome(addr, value) is Ok {
        mem.update(addr as int, value as u8)
    } else {
        mem
    }
}

/// What `load(addr)` returns on slots `mem`.
pub open spec fn loaded(mem: Seq<u8>, addr: usize) -> Result<u8, Error> {
    if addr >= MAX_MEMORY_SIZE {
        Err(Error::AddressOutOfRange(addr))
    } else {
        Ok(mem[addr as int])
    }
}

/// `entries` lists exactly the non-zero slots of `mem`, each as its address
/// and value, by ascending address.
pub open spec fn is_dump_of(entries: Seq<(usize, u8)>, mem: Seq<u8>) -> bool {
    &&& forall|k: int|
        0 <= k < entries.len() ==> {
            &&& (#[trigger] entries[k]).0 < mem.len()
            &&& entries[k].1 == mem[entries[k].0 as int]
            &&& entries[k].1 > 0
        }
    &&& forall|j: int, k: int|
        0 <= j < k < entries.len() ==> (#[trigger] entries[j]).0 < (#[trigger] entries[k]).0
    &&& forall|addr: int|
        0 <= addr < mem.len() && #[trigger] mem[addr] > 0 ==> exists|k: int|
            0 <= k < entries.len() && (#[trigger] entries[k]).0 == addr
}

impl Memory {
    /// A memory with every slot zero.
    pub fn new() -> (memory: Memory)
        ensures
            memory@ == Seq::new(MAX_MEMORY_SIZE as nat, |addr: int| 0u8),
    {
        let memory = Memory { slots: [0u8; MAX_MEMORY_SIZE] };
        assert(memory@ =~= Seq::new(MAX_MEMORY_SIZE as nat, |addr: int| 0u8));
        memory
    }

    /// Writes `value` into the slot at `addr`. Fails, changing nothing, when
    /// `addr` is not below `MAX_MEMORY_SIZE` or `value` does not fit a byte.
    pub fn store(&mut self, addr: usize, value: usize) -> (res: Result<(), Error>)
        ensures
            res == store_outcome(addr, value),
            final(self)@ == stored(old(self)@, addr, value),
    {
        if addr >= MAX_MEMORY_SIZE {
            return Err(Error::AddressOutOfRange(addr));
        }
        if value > 0xff {
            return Err(Error::ValueOutOfRange(value));
        }
        self.slots[addr] = value as u8;
        Ok(())
    }

    /// Reads the slot at `addr`. Fails when `addr` is not below
    /// `MAX_MEMORY_SIZE`.
    pub fn load(&self, addr: usize) -> (res: Result<u8, Error>)
        ensures
            res == loaded(self@, addr),
    {
        if addr >= MAX_MEMORY_SIZE {
            return Err(Error::AddressOutOfRange(addr));
        }
        Ok(self.slots[addr])
    }

    /// The non-zero slots, each as its address and value, by ascending
    /// address: what a display of the memory shows.
    pub fn dump(&self) -> (entries: Vec<(usize, u8)>)
        ensures
            is_dump_of(entries@, self@),
    {
        let mut entries: Vec<(usize, u8)> = Vec::new();
        let mut addr: usize = 0;
        while addr < MAX_MEMORY_SIZE
            invariant
                addr <= MAX_MEMORY_SIZE,
                self@.len() == MAX_MEMORY_SIZE,
                forall|k: int|
                    0 <= k < entries@.len() ==> {
                        &&& (#[trigger] entries@[k]).0 < addr
                        &&& entries@[k].1 == self@[entries@[k].0 as int]
                        &&& entries@[k].1 > 0
                    },
                forall|j: int, k: int|
                    0 <= j < k < entries@.len() ==> (#[trigger] entries@[j]).0 < (
                    #[trigger] entries@[k]).0,
                forall|a: int|
                    0 <= a < addr && #[trigger] self@[a] > 0 ==> exists|k: int|
                        0 <= k < entries@.len() && (#[trigger] entries@[k]).0 == a,
            decreases MAX_MEMORY_SIZE - addr,
        {
            let value = self.slots[addr];
            let ghost before = entries@;
            if value > 0 {
                entries.push((addr, value));
            }
            proof {
                assert forall|a: int| 0 <= a < addr + 1 && #[trigger] self@[a] > 0 implies exists|
                    k: int,
                | 0 <= k < entries@.len() && (#[trigger] entries@[k]).0 == a by {
                    if a < addr {
                        let k = choose|k: int| 0 <= k < before.len() && (#[trigger] before[k]).0 == a;
                        assert(entries@[k] == before[k]);
                    } else {
                        assert(entries@[entries@.len() - 1].0 == a);
                    }
                }
            }
            addr += 1;
        }
        entries
    }

    /// Every memory has exactly `MAX_MEMORY_SIZE` slots.
    pub proof fn lemma_len(&self)
        ensures
            self@.len() == MAX_MEMORY_SIZE,
    {
    }

    /// A value stored at an address within capacity, and fitting a slot, is
    /// what a load from that address then returns.
    pub proof fn lemma_store_then_load(&self, addr: usize, value: usize)
        requires
            addr < MAX_MEMORY_SIZE,
            value <= u8::MAX,
        ensures
            store_outcome(addr, value) is Ok,
            loaded(stored(self@, addr, value), addr) is Ok,
            loaded(stored(self@, addr, value), addr)->Ok_0 == value,
    {
        self.lemma_len();
    }

    /// At an address at or past capacity a store and a load both fail with
    /// `AddressOutOfRange`, whatever the value, and the store changes nothing.
    pub proof fn lemma_out_of_range_rejected(&self, addr: usize, value: usize)
        requires
            addr >= MAX_MEMORY_SIZE,
        ensures
            store_outcome(addr, value) == Err::<(), Error>(Error::AddressOutOfRange(addr)),
            stored(self@, addr, value) == self@,
            loaded(self@, addr) == Err::<u8, Error>(Error::AddressOutOfRange(addr)),
    {
    }

    /// A store changes no slot but the one it names: a load from any other
    /// address returns what it returned before.
    pub proof fn lemma_store_keeps_other_slots(&self, addr: usize, value: usize, other: usize)
        requires
            other != addr,
        ensures
            loaded(stored(self@, addr, value), other) == loaded(self@, other),
    {
        self.lemma_len();
    }
}

} // verus!
