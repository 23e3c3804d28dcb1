use vstd::prelude::*;

verus! {

/// How an instruction's operands are fetched and stored.
///
/// `Dest`/`Src` name the operand whose register holds a memory address; the
/// other operand is a plain register. The `Inc`/`Dec` variants step that
/// address register by the operand size after the transfer.
#[derive(Debug, PartialEq, Eq, Clone, Copy, Structural)]
pub enum AddressingMode {
    Atomic,
    Immediate,
    MemoryDest,
    MemorySrc,
    MemoryDestInc,
    MemorySrcInc,
    MemoryDestDec,
    MemorySrcDec,
}

impl AddressingMode {
    /// The mode named by a three-bit mode field, in declaration order.
    pub open spec fn from_encoding(pattern: u32) -> AddressingMode {
        if pattern == 0 {
            AddressingMode::Atomic
        } else if pattern == 1 {
            AddressingMode::Immediate
        } else if pattern == 2 {
            AddressingMode::MemoryDest
        } else if pattern == 3 {
            AddressingMode::MemorySrc
        } else if pattern == 4 {
            AddressingMode::MemoryDestInc
        } else if pattern == 5 {
            AddressingMode::MemorySrcInc
        } else if pattern == 6 {
            AddressingMode::MemoryDestDec
        } else {
            AddressingMode::MemorySrcDec
        }
    }

    /// The three-bit pattern that names this mode.
    pub open spec fn encoding(self) -> u32 {
        match self {
            AddressingMode::Atomic => 0,
            AddressingMode::Immediate => 1,
            AddressingMode::MemoryDest => 2,
            AddressingMode::MemorySrc => 3,
            AddressingMode::MemoryDestInc => 4,
            AddressingMode::MemorySrcInc => 5,
            AddressingMode::MemoryDestDec => 6,
            AddressingMode::MemorySrcDec => 7,
        }
    }

    /// Decodes a mode field.
    pub fn new(pattern: u32) -> (r: AddressingMode)
        requires
            pattern < 8,
        ensures
            r == AddressingMode::from_encoding(pattern),
    {
        match pattern {
            0 => AddressingMode::Atomic,
            1 => AddressingMode::Immediate,
            2 => AddressingMode::MemoryDest,
            3 => AddressingMode::MemorySrc,
            4 => AddressingMode::MemoryDestInc,
            5 => AddressingMode::MemorySrcInc,
            6 => AddressingMode::MemoryDestDec,
            _ => AddressingMode::MemorySrcDec,
        }
    }

    /// The three-bit pattern that names this mode.
    pub fn to_bits(&self) -> (r: u32)
        ensures
            r == self.encoding(),
    {
        match self {
            AddressingMode::Atomic => 0,
            AddressingMode::Immediate => 1,
            AddressingMode::MemoryDest => 2,
            AddressingMode::MemorySrc => 3,
            AddressingMode::MemoryDestInc => 4,
            AddressingMode::MemorySrcInc => 5,
            AddressingMode::MemoryDestDec => 6,
            AddressingMode::MemorySrcDec => 7,
        }
    }
}

impl From<AddressingMode> for u32 {
    fn from(value: AddressingMode) -> (r: u32) {
        value.to_bits()
    }
}

impl vstd::std_specs::convert::FromSpecImpl<AddressingMode> for u32 {
    open spec fn obeys_from_spec() -> bool {
        true
    }

    open spec fn from_spec(v: AddressingMode) -> u32 {
        v.encoding()
    }
}

} // verus!
