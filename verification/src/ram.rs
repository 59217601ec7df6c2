use vstd::prelude::*;

use crate::exception::Exception;
use crate::{Address, Byte};

verus! {

/// 4KB of RAM
pub const RAM_SIZE: usize = 4096;

const EMPTY_MEM: Byte = 0;

/// Simulated RAM: a flat byte array with bounds-checked access.
#[derive(Debug)]
pub struct Ram {
    /// Buffer with the memory maintained by the RAM
    pub memory: [Byte; RAM_SIZE],
}

impl Ram {
    /// The byte at the given address, or the failure that reading it reports.
    pub open spec fn read_spec(&self, address: Address) -> Result<Byte, Exception> {
        if address >= RAM_SIZE {
            Err(Exception::SegmentationFault(address))
        } else {
            Ok(self.memory@[address as int])
        }
    }

    /// Loads the slice starting in the specified position. Callers keep the
    /// range inside the memory.
    pub fn load(&mut self, start: Address, content: &[Byte])
        requires
            start + content@.len() <= RAM_SIZE,
        ensures
            final(self).memory@.len() == RAM_SIZE,
            forall|k: int|
                0 <= k < content@.len() ==> final(self).memory@[start + k] == content@[k],
            forall|k: int|
                0 <= k < RAM_SIZE && !(start <= k < start + content@.len())
                    ==> final(self).memory@[k] == old(self).memory@[k],
    {
        let mut k: usize = 0;
        while k < content.len()
            invariant
                start + content@.len() <= RAM_SIZE,
                k <= content@.len(),
                self.memory@.len() == RAM_SIZE,
                forall|j: int| 0 <= j < k ==> self.memory@[start + j] == content@[j],
                forall|j: int|
                    0 <= j < RAM_SIZE && !(start <= j < start + k)
                        ==> self.memory@[j] == old(self).memory@[j],
            decreases content@.len() - k,
        {
            self.memory[start as usize + k] = content[k];
            k = k + 1;
        }
    }

    /// Returns the content of the specified address; an address at or beyond
    /// the memory size fails explicitly with the offending address.
    pub fn read(&self, address: Address) -> (result: Result<Byte, Exception>)
        ensures
            result == self.read_spec(address),
    {
        let i = address as usize;
        if i >= RAM_SIZE {
            Err(Exception::SegmentationFault(address))
        } else {
            Ok(self.memory[i])
        }
    }

    /// Overwrites the byte at the given address. Callers keep the address
    /// inside the memory.
    pub fn set(&mut self, address: Address, value: Byte)
        requires
            address < RAM_SIZE,
        ensures
            final(self).memory@ == old(self).memory@.update(address as int, value),
    {
        self.memory[address as usize] = value;
    }

    /// Overwrites the byte at the given address; an address at or beyond the
    /// memory size fails explicitly with the offending address and changes
    /// nothing.
    pub fn write(&mut self, address: Address, value: Byte) -> (result: Result<(), Exception>)
        ensures
            address < RAM_SIZE ==> {
                &&& result == Ok::<(), Exception>(())
                &&& final(self).memory@ == old(self).memory@.update(address as int, value)
            },
            address >= RAM_SIZE ==> {
                &&& result == Err::<(), Exception>(Exception::SegmentationFault(address))
                &&& *final(self) == *old(self)
            },
    {
        let i = address as usize;
        if i >= RAM_SIZE {
            Err(Exception::SegmentationFault(address))
        } else {
            self.memory[i] = value;
            Ok(())
        }
    }
}

impl Default for Ram {
    fn default() -> (ram: Self)
        ensures
            forall|i: int| 0 <= i < RAM_SIZE ==> ram.memory@[i] == 0,
    {
        Ram {
            memory: [EMPTY_MEM; RAM_SIZE],
        }
    }
}

} // verus!
