use vstd::prelude::*;
use crate::addressing_modes::AddressingMode;
use crate::opcode::{
    layout, LeaOpcode, MoveOpcode, Opcode, PopOpcode, PushOpcode, OPCODE_LEA, OPCODE_MOVE,
    OPCODE_POP, OPCODE_PUSH,
};
use crate::opcode_size::OpcodeSize;
use crate::register::{lemma_register_ordinal_bijection, Register};

verus! {

const DECODER_OPCODE_MASK: u32 = 0xFF;

const DECODER_ADDR_MODE_START: u32 = 8;

const DECODER_ADDR_MODE_MASK: u32 = 0x07;

const DECODER_DESTINATION_REGISTER_START: u32 = 14;

const DECODER_DESTINATION_REGISTER_MASK: u32 = 0x3F;

const DECODER_SOURCE_REGISTER_START: u32 = 19;

const DECODER_SOURCE_REGISTER_MASK: u32 = 0x3F;

const DECODER_OFFSET_START: u32 = 24;

const DECODER_OFFSET_MASK: u32 = 0x3F;

const DECODER_SIZE_START: u32 = 30;

const DECODER_SIZE_MASK: u32 = 0x03;

/// Only the low five bits of a register field name a register.
const REGISTER_ORDINAL_MASK: u32 = 0x1F;

/// Opcode id, bits 0..7.
pub open spec fn opcode_field(w: u32) -> u32 {
    w & 0xFF
}

/// Addressing mode, bits 8..10.
pub open spec fn mode_field(w: u32) -> u32 {
    (w >> 8u32) & 0x07
}

/// Destination register field, bits 14..19.
pub open spec fn dest_field(w: u32) -> u32 {
    (w >> 14u32) & 0x3F
}

/// Source register field, bits 19..24.
pub open spec fn src_field(w: u32) -> u32 {
    (w >> 19u32) & 0x3F
}

/// Offset, bits 24..29.
pub open spec fn offset_field(w: u32) -> u32 {
    (w >> 24u32) & 0x3F
}

/// Operand size, bits 30..31.
pub open spec fn size_field(w: u32) -> u32 {
    (w >> 30u32) & 0x03
}

/// The register named by the low five bits of a register field.
pub open spec fn register_of(field: u32) -> Register {
    Register::from_ordinal(field & 0x1F)
}

/// The instruction that word `w` encodes.
pub open spec fn decode_spec(w: u32) -> Opcode {
    let mode = AddressingMode::from_encoding(mode_field(w));
    let size = OpcodeSize::from_encoding(size_field(w));
    let offset = offset_field(w);
    let dest = register_of(dest_field(w));
    let src = register_of(src_field(w));
    if opcode_field(w) == OPCODE_MOVE {
        Opcode::Move(
            MoveOpcode { addr_mode: mode, destination: dest, source: src, offset, size },
        )
    } else if opcode_field(w) == OPCODE_LEA {
        Opcode::Lea(LeaOpcode { addr_mode: mode, destination: dest, offset, size })
    } else if opcode_field(w) == OPCODE_PUSH {
        Opcode::Push(PushOpcode { addressing_mode: mode, source: src, offset, size })
    } else if opcode_field(w) == OPCODE_POP {
        Opcode::Pop(PopOpcode { addressing_mode: mode, destination: dest, offset, size })
    } else {
        Opcode::Unknown
    }
}

/// The instruction that a set of fields names; each field is cut to its
/// width first.
pub open spec fn decode_fields(b: BitPattern) -> Opcode {
    let mode = AddressingMode::from_encoding(b.addr_mode & 0x07);
    let size = OpcodeSize::from_encoding(b.size & 0x03);
    let offset = b.offset;
    let dest = register_of(b.dest_reg);
    let src = register_of(b.src_reg);
    if b.opcode == OPCODE_MOVE {
        Opcode::Move(
            MoveOpcode { addr_mode: mode, destination: dest, source: src, offset, size },
        )
    } else if b.opcode == OPCODE_LEA {
        Opcode::Lea(LeaOpcode { addr_mode: mode, destination: dest, offset, size })
    } else if b.opcode == OPCODE_PUSH {
        Opcode::Push(PushOpcode { addressing_mode: mode, source: src, offset, size })
    } else if b.opcode == OPCODE_POP {
        Opcode::Pop(PopOpcode { addressing_mode: mode, destination: dest, offset, size })
    } else {
        Opcode::Unknown
    }
}

/// The fields of an instruction word, split apart.
#[derive(Debug, PartialEq, Eq, Clone, Copy, Structural)]
pub struct BitPattern {
    pub pattern: u32,
    pub opcode: u32,
    pub addr_mode: u32,
    pub dest_reg: u32,
    pub src_reg: u32,
    pub offset: u32,
    pub size: u32,
}

impl BitPattern {
    /// The fields hold the slices of `pattern` that the layout assigns them.
    pub open spec fn fields_of(self, w: u32) -> bool {
        &&& self.pattern == w
        &&& self.opcode == opcode_field(w)
        &&& self.addr_mode == mode_field(w)
        &&& self.dest_reg == dest_field(w)
        &&& self.src_reg == src_field(w)
        &&& self.offset == offset_field(w)
        &&& self.size == size_field(w)
    }

    /// Splits an instruction word into its fields.
    pub fn new(pattern: u32) -> (r: BitPattern)
        ensures
            r.fields_of(pattern),
    {
        BitPattern {
            pattern,
            opcode: pattern & DECODER_OPCODE_MASK,
            addr_mode: (pattern >> DECODER_ADDR_MODE_START) & DECODER_ADDR_MODE_MASK,
            dest_reg: (pattern >> DECODER_DESTINATION_REGISTER_START)
                & DECODER_DESTINATION_REGISTER_MASK,
            src_reg: (pattern >> DECODER_SOURCE_REGISTER_START) & DECODER_SOURCE_REGISTER_MASK,
            offset: (pattern >> DECODER_OFFSET_START) & DECODER_OFFSET_MASK,
            size: (pattern >> DECODER_SIZE_START) & DECODER_SIZE_MASK,
        }
    }

    /// Builds the typed instruction from the fields; an opcode id other than
    /// Move, Lea, Push or Pop gives `Opcode::Unknown`.
    pub fn to_opcode(&self) -> (r: Opcode)
        ensures
            r == decode_fields(*self),
    {
        let mode_bits = self.addr_mode & DECODER_ADDR_MODE_MASK;
        let size_bits = self.size & DECODER_SIZE_MASK;
        let dest_bits = self.dest_reg & REGISTER_ORDINAL_MASK;
        let src_bits = self.src_reg & REGISTER_ORDINAL_MASK;
        proof {
            let (m, z, d, s) = (self.addr_mode, self.size, self.dest_reg, self.src_reg);
            assert(m & 0x07 < 8 && z & 0x03 < 4 && d & 0x1F < 32 && s & 0x1F < 32) by (bit_vector);
        }
        let mode = AddressingMode::new(mode_bits);
        let size = OpcodeSize::new(size_bits);
        let dest = Register::new(dest_bits);
        let src = Register::new(src_bits);
        let offset = self.offset;
        if self.opcode == OPCODE_MOVE {
            Opcode::Move(
                MoveOpcode { addr_mode: mode, destination: dest, source: src, offset, size },
            )
        } else if self.opcode == OPCODE_LEA {
            Opcode::Lea(LeaOpcode { addr_mode: mode, destination: dest, offset, size })
        } else if self.opcode == OPCODE_PUSH {
            Opcode::Push(PushOpcode { addressing_mode: mode, source: src, offset, size })
        } else if self.opcode == OPCODE_POP {
            Opcode::Pop(PopOpcode { addressing_mode: mode, destination: dest, offset, size })
        } else {
            Opcode::Unknown
        }
    }
}

/// Decodes one instruction word.
pub fn decode(to_decode: u32) -> (r: Opcode)
    ensures
        r == decode_spec(to_decode),
{
    let fields = BitPattern::new(to_decode);
    proof {
        let w = to_decode;
        assert(((w >> 8u32) & 0x07) & 0x07 == (w >> 8u32) & 0x07) by (bit_vector);
        assert(((w >> 30u32) & 0x03) & 0x03 == (w >> 30u32) & 0x03) by (bit_vector);
    }
    fields.into()
}

impl From<BitPattern> for Opcode {
    fn from(value: BitPattern) -> (r: Opcode) {
        value.to_opcode()
    }
}

impl vstd::std_specs::convert::FromSpecImpl<BitPattern> for Opcode {
    open spec fn obeys_from_spec() -> bool {
        true
    }

    open spec fn from_spec(v: BitPattern) -> Opcode {
        decode_fields(v)
    }
}

/// The words for which decoding loses nothing: a known opcode id, zero in
/// the unused bits 11..13, a size pattern other than the alias 3, and zero
/// in the register field that the instruction does not carry (the source
/// for Lea and Pop, the destination for Push).
pub open spec fn round_trips(w: u32) -> bool {
    let id = opcode_field(w);
    &&& 1 <= id <= 4
    &&& (w >> 11u32) & 0x07 == 0
    &&& size_field(w) < 3
    &&& (id == OPCODE_LEA || id == OPCODE_POP) ==> (w >> 19u32) & 0x1F == 0
    &&& id == OPCODE_PUSH ==> (w >> 14u32) & 0x1F == 0
}

/// Encoding a decoded instruction reproduces the word it was decoded from,
/// for every opcode, addressing mode, register and size in range.
pub proof fn lemma_decode_then_encode(w: u32)
    requires
        round_trips(w),
    ensures
        decode_spec(w).encodable(),
        decode_spec(w).encode_spec() == w,
{
    lemma_register_ordinal_bijection();
    let size = (w >> 30u32) & 0x03;
    let offset = (w >> 24u32) & 0x3F;
    let src = (w >> 19u32) & 0x1F;
    let dest = (w >> 14u32) & 0x1F;
    let mode = (w >> 8u32) & 0x07;
    let id = w & 0xFF;
    assert({
        &&& w == layout(id, mode, dest, src, offset, size)
        &&& ((w >> 14u32) & 0x3F) & 0x1F == dest
        &&& ((w >> 19u32) & 0x3F) & 0x1F == src
        &&& mode < 8 && dest < 32 && src < 32 && offset < 64
    }) by (bit_vector)
        requires
            (w >> 11u32) & 0x07 == 0,
            size == (w >> 30u32) & 0x03,
            offset == (w >> 24u32) & 0x3F,
            src == (w >> 19u32) & 0x1F,
            dest == (w >> 14u32) & 0x1F,
            mode == (w >> 8u32) & 0x07,
            id == w & 0xFF,
    ;
    assert(AddressingMode::from_encoding(mode).encoding() == mode);
    assert(OpcodeSize::from_encoding(size).encoding() == size);
}

/// Decoding the word of an instruction gives the instruction back.
pub proof fn lemma_encode_then_decode(op: Opcode)
    requires
        op.encodable(),
    ensures
        decode_spec(op.encode_spec()) == op,
{
    lemma_register_ordinal_bijection();
    let (id, mode, dest, src, offset, size) = match op {
        Opcode::Move(m) => (
            OPCODE_MOVE,
            m.addr_mode.encoding(),
            m.destination.ordinal() as u32,
            m.source.ordinal() as u32,
            m.offset,
            m.size.encoding(),
        ),
        Opcode::Lea(l) => (
            OPCODE_LEA,
            l.addr_mode.encoding(),
            l.destination.ordinal() as u32,
            0u32,
            l.offset,
            l.size.encoding(),
        ),
        Opcode::Push(p) => (
            OPCODE_PUSH,
            p.addressing_mode.encoding(),
            0u32,
            p.source.ordinal() as u32,
            p.offset,
            p.size.encoding(),
        ),
        Opcode::Pop(p) => (
            OPCODE_POP,
            p.addressing_mode.encoding(),
            p.destination.ordinal() as u32,
            0u32,
            p.offset,
            p.size.encoding(),
        ),
        Opcode::Unknown => (0u32, 0u32, 0u32, 0u32, 0u32, 0u32),
    };
    assert(op.encode_spec() == layout(id, mode, dest, src, offset, size));
    let w = layout(id, mode, dest, src, offset, size);
    assert({
        &&& w & 0xFF == id
        &&& (w >> 8u32) & 0x07 == mode
        &&& ((w >> 14u32) & 0x3F) & 0x1F == dest
        &&& ((w >> 19u32) & 0x3F) & 0x1F == src
        &&& (w >> 24u32) & 0x3F == offset
        &&& (w >> 30u32) & 0x03 == size
    }) by (bit_vector)
        requires
            w == layout(id, mode, dest, src, offset, size),
            1 <= id <= 4,
            mode < 8,
            dest < 32,
            src < 32,
            offset < 64,
            size < 3,
    ;
    assert(Register::from_ordinal(dest).ordinal() == dest);
}

} // verus!
