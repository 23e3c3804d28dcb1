use vstd::prelude::*;
use crate::memory::{write_command, MemoryWrite};

verus! {

/// How many bytes an instruction transfers: 1, 2 or 4.
#[derive(Debug, PartialEq, Eq, Clone, Copy, Structural)]
pub enum OpcodeSize {
    Byte,
    Word,
    Dword,
}

impl OpcodeSize {
    /// The size named by a two-bit size field; the unused pattern 3 names Dword.
    pub open spec fn from_encoding(pattern: u32) -> OpcodeSize {
        if pattern == 0 {
            OpcodeSize::Byte
        } else if pattern == 1 {
            OpcodeSize::Word
        } else {
            OpcodeSize::Dword
        }
    }

    /// The two-bit pattern that names this size.
    pub open spec fn encoding(self) -> u32 {
        match self {
            OpcodeSize::Byte => 0,
            OpcodeSize::Word => 1,
            OpcodeSize::Dword => 2,
        }
    }

    /// Number of bytes moved per access.
    pub open spec fn bytes(self) -> u32 {
        match self {
            OpcodeSize::Byte => 1,
            OpcodeSize::Word => 2,
            OpcodeSize::Dword => 4,
        }
    }

    /// The low-order bytes of `value` that a transfer of this size keeps.
    pub open spec fn truncate(self, value: u32) -> u32 {
        match self {
            OpcodeSize::Byte => (value % 0x100) as u32,
            OpcodeSize::Word => (value % 0x1_0000) as u32,
            OpcodeSize::Dword => value,
        }
    }

    /// Decodes a size field; `pattern` 3 aliases Dword.
    pub fn new(pattern: u32) -> (r: OpcodeSize)
        requires
            pattern < 4,
        ensures
            r == OpcodeSize::from_encoding(pattern),
    {
        match pattern {
            0 => OpcodeSize::Byte,
            1 => OpcodeSize::Word,
            _ => OpcodeSize::Dword,
        }
    }

    /// Keeps the bytes of `data` that a transfer of this size carries.
    pub fn retrieve_data(&self, data: u32) -> (r: u32)
        ensures
            r == self.truncate(data),
    {
        match self {
            OpcodeSize::Byte => data % 0x100,
            OpcodeSize::Word => data % 0x1_0000,
            OpcodeSize::Dword => data,
        }
    }

    /// Number of bytes moved per access, also the step of a pointer register.
    pub fn size_in_bytes(&self) -> (r: u32)
        ensures
            r == self.bytes(),
    {
        match self {
            OpcodeSize::Byte => 1,
            OpcodeSize::Word => 2,
            OpcodeSize::Dword => 4,
        }
    }
}

impl OpcodeSize {
    /// The store command that writes the low bytes of `value` at `address`.
    pub fn memory_write_command(&self, address: u32, value: u32) -> (r: MemoryWrite)
        ensures
            r == write_command(*self, address, value),
    {
        match self {
            OpcodeSize::Byte => MemoryWrite::Byte { address, value: (value % 0x100) as u8 },
            OpcodeSize::Word => MemoryWrite::Word { address, value: (value % 0x1_0000) as u16 },
            OpcodeSize::Dword => MemoryWrite::Dword { address, value },
        }
    }

    /// The suffix that names this size in assembly: `B`, `W` or `DW`.
    pub fn mnemonic(&self) -> (r: &'static str)
        ensures
            r@ == match self {
                OpcodeSize::Byte => "B"@,
                OpcodeSize::Word => "W"@,
                OpcodeSize::Dword => "DW"@,
            },
    {
        match self {
            OpcodeSize::Byte => "B",
            OpcodeSize::Word => "W",
            OpcodeSize::Dword => "DW",
        }
    }
}

/// Truncation keeps exactly the low 8 bits for Byte, the low 16 bits for
/// Word, and all 32 bits for Dword.
pub proof fn lemma_truncate_is_mask(v: u32)
    ensures
        OpcodeSize::Byte.truncate(v) == v & 0xFF,
        OpcodeSize::Word.truncate(v) == v & 0xFFFF,
        OpcodeSize::Dword.truncate(v) == v,
{
    assert(v % 0x100 == v & 0xFF) by (bit_vector);
    assert(v % 0x1_0000 == v & 0xFFFF) by (bit_vector);
}

impl From<OpcodeSize> for u32 {
    fn from(value: OpcodeSize) -> (r: u32) {
        match value {
            OpcodeSize::Byte => 0,
            OpcodeSize::Word => 1,
            OpcodeSize::Dword => 2,
        }
    }
}

impl vstd::std_specs::convert::FromSpecImpl<OpcodeSize> for u32 {
    open spec fn obeys_from_spec() -> bool {
        true
    }

    open spec fn from_spec(v: OpcodeSize) -> u32 {
        v.encoding()
    }
}

} // verus!
