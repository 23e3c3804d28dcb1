use vstd::prelude::*;
use crate::addressing_modes::AddressingMode;
use crate::opcode_size::OpcodeSize;
use crate::register::Register;

verus! {

/// Opcode id of Move in the low byte of an instruction word.
pub const OPCODE_MOVE: u32 = 0x01;

/// Opcode id of Lea.
pub const OPCODE_LEA: u32 = 0x02;

/// Opcode id of Push.
pub const OPCODE_PUSH: u32 = 0x03;

/// Opcode id of Pop.
pub const OPCODE_POP: u32 = 0x04;

/// A decoded instruction, or the marker for an opcode id that names none.
#[derive(Debug, PartialEq, Eq, Clone, Copy, Structural)]
pub enum Opcode {
    Move(MoveOpcode),
    Lea(LeaOpcode),
    Push(PushOpcode),
    Pop(PopOpcode),
    Unknown,
}

/// Copies a value between registers and memory.
#[derive(Debug, PartialEq, Eq, Clone, Copy, Structural)]
pub struct MoveOpcode {
    pub addr_mode: AddressingMode,
    pub destination: Register,
    pub source: Register,
    pub offset: u32,
    pub size: OpcodeSize,
}

/// Loads the word that follows the instruction into an address register.
#[derive(Debug, PartialEq, Eq, Clone, Copy, Structural)]
pub struct LeaOpcode {
    pub addr_mode: AddressingMode,
    pub destination: Register,
    pub offset: u32,
    pub size: OpcodeSize,
}

/// Stores an operand at the stack pointer (A15) and moves it down.
#[derive(Debug, PartialEq, Eq, Clone, Copy, Structural)]
pub struct PushOpcode {
    pub addressing_mode: AddressingMode,
    pub source: Register,
    pub offset: u32,
    pub size: OpcodeSize,
}

/// Loads the value at the stack pointer (A15) and moves it up.
#[derive(Debug, PartialEq, Eq, Clone, Copy, Structural)]
pub struct PopOpcode {
    pub addressing_mode: AddressingMode,
    pub destination: Register,
    pub offset: u32,
    pub size: OpcodeSize,
}

/// The instruction word with the given fields, laid out as
/// `size[30:31] offset[24:29] source[19:23] destination[14:18] mode[8:10] id[0:7]`.
pub open spec fn layout(id: u32, mode: u32, dest: u32, src: u32, offset: u32, size: u32) -> u32 {
    (size << 30u32) | (offset << 24u32) | (src << 19u32) | (dest << 14u32) | (mode << 8u32) | id
}

impl Opcode {
    /// Every field fits its slot of the layout.
    pub open spec fn encodable(self) -> bool {
        match self {
            Opcode::Move(m) => m.offset < 64,
            Opcode::Lea(l) => l.offset < 64,
            Opcode::Push(p) => p.offset < 64,
            Opcode::Pop(p) => p.offset < 64,
            Opcode::Unknown => false,
        }
    }

    /// The instruction word of a decoded instruction; a register an
    /// instruction does not carry is encoded as 0.
    pub open spec fn encode_spec(self) -> u32 {
        match self {
            Opcode::Move(m) => layout(
                OPCODE_MOVE,
                m.addr_mode.encoding(),
                m.destination.ordinal() as u32,
                m.source.ordinal() as u32,
                m.offset,
                m.size.encoding(),
            ),
            Opcode::Lea(l) => layout(
                OPCODE_LEA,
                l.addr_mode.encoding(),
                l.destination.ordinal() as u32,
                0,
                l.offset,
                l.size.encoding(),
            ),
            Opcode::Push(p) => layout(
                OPCODE_PUSH,
                p.addressing_mode.encoding(),
                0,
                p.source.ordinal() as u32,
                p.offset,
                p.size.encoding(),
            ),
            Opcode::Pop(p) => layout(
                OPCODE_POP,
                p.addressing_mode.encoding(),
                p.destination.ordinal() as u32,
                0,
                p.offset,
                p.size.encoding(),
            ),
            Opcode::Unknown => 0,
        }
    }

    /// Packs the instruction back into its instruction word.
    pub fn encode(&self) -> (r: u32)
        requires
            self.encodable(),
        ensures
            r == self.encode_spec(),
    {
        match self {
            Opcode::Move(m) => {
                let mode = m.addr_mode.to_bits();
                let dest = m.destination.index();
                let src = m.source.index();
                let size: u32 = m.size.into();
                (size << 30u32) | (m.offset << 24u32) | (src << 19u32) | (dest << 14u32) | (mode
                    << 8u32) | OPCODE_MOVE
            },
            Opcode::Lea(l) => {
                let mode = l.addr_mode.to_bits();
                let dest = l.destination.index();
                let size: u32 = l.size.into();
                (size << 30u32) | (l.offset << 24u32) | (0u32 << 19u32) | (dest << 14u32) | (mode
                    << 8u32) | OPCODE_LEA
            },
            Opcode::Push(p) => {
                let mode = p.addressing_mode.to_bits();
                let src = p.source.index();
                let size: u32 = p.size.into();
                (size << 30u32) | (p.offset << 24u32) | (src << 19u32) | (0u32 << 14u32) | (mode
                    << 8u32) | OPCODE_PUSH
            },
            Opcode::Pop(p) => {
                let mode = p.addressing_mode.to_bits();
                let dest = p.destination.index();
                let size: u32 = p.size.into();
                (size << 30u32) | (p.offset << 24u32) | (0u32 << 19u32) | (dest << 14u32) | (mode
                    << 8u32) | OPCODE_POP
            },
            Opcode::Unknown => 0,
        }
    }
}

} // verus!
