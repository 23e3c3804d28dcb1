use vstd::prelude::*;
use crate::opcode_size::OpcodeSize;

verus! {

/// Capacity of the emulated memory in bytes (128 MiB).
pub const MEMORY_SIZE: usize = 128 * 1024 * 1024;

/// The cell that byte `k` of an access at `address` lands in. Addresses
/// wrap around the end of memory, so every 32-bit address is valid.
pub open spec fn cell(address: u32, k: int) -> int {
    (address + k) % (MEMORY_SIZE as int)
}

/// Byte `k` of an access at `address`.
pub open spec fn byte_at(mem: Seq<u8>, address: u32, k: int) -> int {
    mem[cell(address, k)] as int
}

/// The big-endian value of `size` bytes read at `address`.
pub open spec fn read_spec(mem: Seq<u8>, size: OpcodeSize, address: u32) -> u32 {
    match size {
        OpcodeSize::Byte => byte_at(mem, address, 0) as u32,
        OpcodeSize::Word => (byte_at(mem, address, 0) * 0x100 + byte_at(mem, address, 1)) as u32,
        OpcodeSize::Dword => (byte_at(mem, address, 0) * 0x100_0000 + byte_at(mem, address, 1)
            * 0x1_0000 + byte_at(mem, address, 2) * 0x100 + byte_at(mem, address, 3)) as u32,
    }
}

/// Memory after storing the low `size` bytes of `value` big-endian at `address`.
pub open spec fn write_spec(mem: Seq<u8>, size: OpcodeSize, address: u32, value: u32) -> Seq<u8> {
    match size {
        OpcodeSize::Byte => mem.update(cell(address, 0), (value % 0x100) as u8),
        OpcodeSize::Word => mem.update(cell(address, 0), ((value / 0x100) % 0x100) as u8).update(
            cell(address, 1),
            (value % 0x100) as u8,
        ),
        OpcodeSize::Dword => mem.update(cell(address, 0), (value / 0x100_0000) as u8).update(
            cell(address, 1),
            ((value / 0x1_0000) % 0x100) as u8,
        ).update(cell(address, 2), ((value / 0x100) % 0x100) as u8).update(
            cell(address, 3),
            (value % 0x100) as u8,
        ),
    }
}

/// A store of one, two or four bytes at an address.
#[derive(Debug, PartialEq, Eq, Clone, Copy, Structural)]
pub enum MemoryWrite {
    Byte { address: u32, value: u8 },
    Word { address: u32, value: u16 },
    Dword { address: u32, value: u32 },
}

/// Memory after performing the store `command`.
pub open spec fn apply_write(mem: Seq<u8>, command: MemoryWrite) -> Seq<u8> {
    match command {
        MemoryWrite::Byte { address, value } => write_spec(mem, OpcodeSize::Byte, address, value as u32),
        MemoryWrite::Word { address, value } => write_spec(mem, OpcodeSize::Word, address, value as u32),
        MemoryWrite::Dword { address, value } => write_spec(mem, OpcodeSize::Dword, address, value),
    }
}

/// The store of the low `size` bytes of `value` at `address`.
pub open spec fn write_command(size: OpcodeSize, address: u32, value: u32) -> MemoryWrite {
    match size {
        OpcodeSize::Byte => MemoryWrite::Byte { address, value: (value % 0x100) as u8 },
        OpcodeSize::Word => MemoryWrite::Word { address, value: (value % 0x1_0000) as u16 },
        OpcodeSize::Dword => MemoryWrite::Dword { address, value },
    }
}

/// Storing the command for `size`, `address` and `value` writes the low
/// `size` bytes of `value` big-endian at `address`.
pub proof fn lemma_write_command(mem: Seq<u8>, size: OpcodeSize, address: u32, value: u32)
    ensures
        apply_write(mem, write_command(size, address, value)) == write_spec(mem, size, address, value),
{
}

/// A flat, byte-addressable store of `MEMORY_SIZE` bytes. Multi-byte
/// accesses are big-endian; addresses wrap modulo the capacity.
pub struct Memory {
    bytes: Vec<u8>,
}

impl View for Memory {
    type V = Seq<u8>;

    closed spec fn view(&self) -> Seq<u8> {
        self.bytes@
    }
}

impl Memory {
    /// The store holds exactly `MEMORY_SIZE` bytes.
    pub open spec fn wf(&self) -> bool {
        self@.len() == MEMORY_SIZE
    }

    /// A zero-filled memory.
    pub fn new() -> (r: Memory)
        ensures
            r.wf(),
            forall|i: int| 0 <= i < MEMORY_SIZE ==> r@[i] == 0,
    {
        let bytes: Vec<u8> = vec![0u8; MEMORY_SIZE];
        let r = Memory { bytes };
        assert forall|i: int| 0 <= i < MEMORY_SIZE implies r@[i] == 0 by {
            assert(cloned(0u8, bytes@[i]));
        }
        r
    }

    fn cell_index(address: u32, k: u32) -> (r: usize)
        requires
            k < 4,
        ensures
            r == cell(address, k as int),
            r < MEMORY_SIZE,
    {
        ((address as u64 + k as u64) % (MEMORY_SIZE as u64)) as usize
    }

    /// Copies `image` into memory from address 0 on; the bytes after it
    /// keep their values.
    pub fn load(&mut self, image: &[u8])
        requires
            old(self).wf(),
            image@.len() <= MEMORY_SIZE,
        ensures
            final(self).wf(),
            final(self)@ == image@ + old(self)@.subrange(image@.len() as int, MEMORY_SIZE as int),
    {
        let mut i: usize = 0;
        while i < image.len()
            invariant
                0 <= i <= image@.len() <= MEMORY_SIZE,
                self.bytes@.len() == MEMORY_SIZE,
                forall|j: int| 0 <= j < i ==> self.bytes@[j] == image@[j],
                forall|j: int| i <= j < MEMORY_SIZE ==> self.bytes@[j] == old(self).bytes@[j],
            decreases image@.len() - i,
        {
            self.bytes.set(i, image[i]);
            i = i + 1;
        }
        assert(self.bytes@ =~= image@ + old(self)@.subrange(image@.len() as int, MEMORY_SIZE as int));
    }

    /// Reads `size` bytes big-endian at `address`.
    pub fn memory_bus_read(&self, size: &OpcodeSize, address: u32) -> (r: u32)
        requires
            self.wf(),
        ensures
            r == read_spec(self@, *size, address),
    {
        match size {
            OpcodeSize::Byte => self.read_byte(address),
            OpcodeSize::Word => self.read_word(address),
            OpcodeSize::Dword => self.read_dword(address),
        }
    }

    /// Performs a store command.
    pub fn memory_bus_write(&mut self, command: MemoryWrite)
        requires
            old(self).wf(),
        ensures
            final(self).wf(),
            final(self)@ == apply_write(old(self)@, command),
    {
        match command {
            MemoryWrite::Byte { address, value } => self.write_byte(address, value),
            MemoryWrite::Word { address, value } => self.write_word(address, value),
            MemoryWrite::Dword { address, value } => self.write_dword(address, value),
        }
    }

    /// Stores one byte at `address`.
    pub fn write_byte(&mut self, address: u32, value: u8)
        requires
            old(self).wf(),
        ensures
            final(self).wf(),
            final(self)@ == write_spec(old(self)@, OpcodeSize::Byte, address, value as u32),
    {
        let i = Memory::cell_index(address, 0);
        self.bytes.set(i, value);
    }

    /// Stores a 16-bit value big-endian at `address`.
    pub fn write_word(&mut self, address: u32, value: u16)
        requires
            old(self).wf(),
        ensures
            final(self).wf(),
            final(self)@ == write_spec(old(self)@, OpcodeSize::Word, address, value as u32),
    {
        let hi = (value / 0x100) as u8;
        let lo = (value % 0x100) as u8;
        let i0 = Memory::cell_index(address, 0);
        let i1 = Memory::cell_index(address, 1);
        self.bytes.set(i0, hi);
        self.bytes.set(i1, lo);
    }

    /// Stores a 32-bit value big-endian at `address`.
    pub fn write_dword(&mut self, address: u32, value: u32)
        requires
            old(self).wf(),
        ensures
            final(self).wf(),
            final(self)@ == write_spec(old(self)@, OpcodeSize::Dword, address, value),
    {
        let a = (value / 0x100_0000) as u8;
        let b = ((value / 0x1_0000) % 0x100) as u8;
        let c = ((value / 0x100) % 0x100) as u8;
        let d = (value % 0x100) as u8;
        let i0 = Memory::cell_index(address, 0);
        let i1 = Memory::cell_index(address, 1);
        let i2 = Memory::cell_index(address, 2);
        let i3 = Memory::cell_index(address, 3);
        self.bytes.set(i0, a);
        self.bytes.set(i1, b);
        self.bytes.set(i2, c);
        self.bytes.set(i3, d);
    }

    /// The byte at `address`.
    pub fn read_byte(&self, address: u32) -> (r: u32)
        requires
            self.wf(),
        ensures
            r == read_spec(self@, OpcodeSize::Byte, address),
    {
        self.bytes[Memory::cell_index(address, 0)] as u32
    }

    /// The 16-bit big-endian value at `address`.
    pub fn read_word(&self, address: u32) -> (r: u32)
        requires
            self.wf(),
        ensures
            r == read_spec(self@, OpcodeSize::Word, address),
    {
        let hi = self.bytes[Memory::cell_index(address, 0)] as u32;
        let lo = self.bytes[Memory::cell_index(address, 1)] as u32;
        hi * 0x100 + lo
    }

    /// The 32-bit big-endian value at `address`.
    pub fn read_dword(&self, address: u32) -> (r: u32)
        requires
            self.wf(),
        ensures
            r == read_spec(self@, OpcodeSize::Dword, address),
    {
        let a = self.bytes[Memory::cell_index(address, 0)] as u32;
        let b = self.bytes[Memory::cell_index(address, 1)] as u32;
        let c = self.bytes[Memory::cell_index(address, 2)] as u32;
        let d = self.bytes[Memory::cell_index(address, 3)] as u32;
        a * 0x100_0000 + b * 0x1_0000 + c * 0x100 + d
    }
}

} // verus!
