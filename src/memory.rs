use vstd::prelude::*;

verus! {

/// Size of the flat address space.
pub const MEMORY_SIZE: usize = 0x10000;

/// A flat byte-addressable bus: every 16-bit address holds one byte.
pub struct MemoryMap {
    bytes: Vec<u8>,
}

impl View for MemoryMap {
    type V = Seq<u8>;

    closed spec fn view(&self) -> Seq<u8> {
        self.bytes@
    }
}

impl MemoryMap {
    /// Every 16-bit address is backed by a byte.
    pub open spec fn wf(&self) -> bool {
        self@.len() == MEMORY_SIZE
    }

    /// A bus whose every byte is zero.
    pub fn new() -> (r: MemoryMap)
        ensures
            r.wf(),
            forall|i: int| 0 <= i < MEMORY_SIZE ==> r@[i] == 0,
    {
        let mut bytes: Vec<u8> = Vec::new();
        while bytes.len() < MEMORY_SIZE
            invariant
                bytes@.len() <= MEMORY_SIZE,
                forall|i: int| 0 <= i < bytes@.len() ==> bytes@[i] == 0,
            decreases MEMORY_SIZE - bytes@.len(),
        {
            bytes.push(0);
        }
        MemoryMap { bytes }
    }

    pub fn read_byte_at(&self, address: u16) -> (r: u8)
        requires
            self.wf(),
        ensures
            r == self@[address as int],
    {
        self.bytes[address as usize]
    }

    pub fn write_byte_at(&mut self, address: u16, data: u8)
        requires
            old(self).wf(),
        ensures
            final(self).wf(),
            final(self)@ == old(self)@.update(address as int, data),
    {
        self.bytes.set(address as usize, data);
    }
}

impl Default for MemoryMap {
    fn default() -> (r: MemoryMap)
        ensures
            r.wf(),
            forall|i: int| 0 <= i < MEMORY_SIZE ==> r@[i] == 0,
    {
        MemoryMap::new()
    }
}

} // verus!
