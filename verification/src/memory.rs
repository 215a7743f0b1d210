//! Flat byte-addressable storage spanning the full 16-bit address space.
//!
//! Every 16-bit address is in range, so no read or write can fault.

use vstd::prelude::*;

verus! {

/// The number of addressable bytes: the full 16-bit address space.
pub const MEMORY_SIZE: usize = 0x10000;

/// 64 KiB of byte-addressable storage.
pub struct Memory {
    data: Vec<u8>,
}

impl View for Memory {
    type V = Seq<u8>;

    closed spec fn view(&self) -> Seq<u8> {
        self.data@
    }
}

impl Memory {
    /// Every well-formed memory spans exactly the 16-bit address space.
    #[verifier::type_invariant]
    pub closed spec fn wf(self) -> bool {
        self.data.len() == MEMORY_SIZE
    }

    /// A fresh memory with every byte zero-initialized.
    pub fn new() -> (m: Memory)
        ensures
            m@.len() == MEMORY_SIZE,
            forall|i: int| 0 <= i < MEMORY_SIZE ==> m@[i] == 0u8,
    {
        let mut data: Vec<u8> = Vec::new();
        let mut i: usize = 0;
        while i < MEMORY_SIZE
            invariant
                i <= MEMORY_SIZE,
                data.len() == i,
                forall|j: int| 0 <= j < i ==> data@[j] == 0u8,
            decreases MEMORY_SIZE - i,
        {
            data.push(0);
            i = i + 1;
        }
        Memory { data }
    }

    /// The byte stored at `address`.
    pub fn read(&self, address: u16) -> (value: u8)
        ensures
            self@.len() == MEMORY_SIZE,
            value == self@[address as int],
    {
        proof {
            use_type_invariant(self);
        }
        self.data[address as usize]
    }

    /// Stores `value` at `address`, leaving every other byte unchanged.
    pub fn write(&mut self, address: u16, value: u8)
        ensures
            old(self)@.len() == MEMORY_SIZE,
            final(self)@ == old(self)@.update(address as int, value),
    {
        proof {
            use_type_invariant(&*self);
        }
        self.data[address as usize] = value;
    }
}

} // verus!
