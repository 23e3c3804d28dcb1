use vstd::prelude::*;
use crate::addressing_modes::AddressingMode;
use crate::decoder::{decode, decode_spec};
use crate::memory::{lemma_write_command, read_spec, write_spec, Memory, MEMORY_SIZE};
use crate::opcode::{LeaOpcode, MoveOpcode, Opcode, PopOpcode, PushOpcode};
use crate::opcode_size::OpcodeSize;
use crate::register::Register;
use crate::register_file::RegisterFile;
use crate::status_register::{bit_set, Flags, StatusRegister};

verus! {

/// Bit 31, the sign bit of a 32-bit value.
pub const SIGN_MASK: u32 = 0x8000_0000;

/// Why an instruction could not be executed. Both are fatal to the program
/// being run; the caller decides how to stop.
#[derive(Debug, PartialEq, Eq, Clone, Copy, Structural)]
pub enum ExecutionError {
    /// The decoder did not recognise the opcode id.
    UnknownOpcode,
    /// The instruction does not allow its addressing mode or operand
    /// (Lea into a data register, Push or Pop in a mode they lack).
    InvalidAddressing,
}

/// What an instruction can read and change: the registers, the last
/// written register value, the program counter and the memory.
pub struct MachineState {
    pub registers: Seq<u32>,
    pub last_written: u32,
    pub pc: u32,
    pub memory: Seq<u8>,
}

/// The content of register `r`.
pub open spec fn reg(s: MachineState, r: Register) -> u32 {
    s.registers[r.ordinal() as int]
}

/// `s` after storing `v` into register `r`.
pub open spec fn write_reg(s: MachineState, r: Register, v: u32) -> MachineState {
    MachineState {
        registers: s.registers.update(r.ordinal() as int, v),
        last_written: v,
        pc: s.pc,
        memory: s.memory,
    }
}

/// `s` after storing the low `size` bytes of `v` at `address`.
pub open spec fn write_mem(s: MachineState, size: OpcodeSize, address: u32, v: u32) -> MachineState {
    MachineState {
        registers: s.registers,
        last_written: s.last_written,
        pc: s.pc,
        memory: write_spec(s.memory, size, address, v),
    }
}

/// `s` with the program counter moved to the trailing operand word.
pub open spec fn advance_pc(s: MachineState) -> MachineState {
    MachineState {
        registers: s.registers,
        last_written: s.last_written,
        pc: s.pc.wrapping_add(4),
        memory: s.memory,
    }
}

/// The register that Push and Pop use as the stack pointer.
pub open spec fn stack_pointer() -> Register {
    Register::A15
}

/// The effect of a Move.
pub open spec fn move_step(s: MachineState, m: MoveOpcode) -> MachineState {
    let size = m.size;
    let step = size.bytes();
    let dest = m.destination;
    let src = m.source;
    match m.addr_mode {
        AddressingMode::Atomic => write_reg(s, dest, size.truncate(reg(s, src))),
        AddressingMode::Immediate => {
            let s1 = advance_pc(s);
            write_reg(s1, dest, read_spec(s1.memory, OpcodeSize::Dword, s1.pc))
        },
        AddressingMode::MemoryDest => write_mem(
            s,
            size,
            reg(s, dest),
            size.truncate(reg(s, src)),
        ),
        AddressingMode::MemorySrc => write_reg(s, dest, read_spec(s.memory, size, reg(s, src))),
        AddressingMode::MemoryDestInc => {
            let a = reg(s, dest);
            write_reg(write_mem(s, size, a, size.truncate(reg(s, src))), dest, a.wrapping_add(step))
        },
        AddressingMode::MemoryDestDec => {
            let a = reg(s, dest);
            write_reg(write_mem(s, size, a, size.truncate(reg(s, src))), dest, a.wrapping_sub(step))
        },
        AddressingMode::MemorySrcInc => {
            let a = reg(s, src);
            write_reg(write_reg(s, dest, read_spec(s.memory, size, a)), src, a.wrapping_add(step))
        },
        AddressingMode::MemorySrcDec => {
            let a = reg(s, src);
            write_reg(write_reg(s, dest, read_spec(s.memory, size, a)), src, a.wrapping_sub(step))
        },
    }
}

/// The effect of a Lea whose destination is an address register.
pub open spec fn lea_step(s: MachineState, l: LeaOpcode) -> MachineState {
    let s1 = advance_pc(s);
    write_reg(s1, l.destination, read_spec(s1.memory, OpcodeSize::Dword, s1.pc))
}

/// `s` after storing `v` at the stack pointer and moving it down by `size`.
pub open spec fn push_value(s: MachineState, size: OpcodeSize, v: u32) -> MachineState {
    let s1 = write_mem(s, size, reg(s, stack_pointer()), v);
    write_reg(s1, stack_pointer(), reg(s1, stack_pointer()).wrapping_sub(size.bytes()))
}

/// Whether Push has an effect in mode `mode`.
pub open spec fn push_supports(mode: AddressingMode) -> bool {
    match mode {
        AddressingMode::Atomic | AddressingMode::Immediate | AddressingMode::MemoryDest
        | AddressingMode::MemoryDestInc | AddressingMode::MemoryDestDec => true,
        _ => false,
    }
}

/// The effect of a Push in a mode it supports.
pub open spec fn push_step(s: MachineState, p: PushOpcode) -> MachineState {
    let size = p.size;
    let src = p.source;
    match p.addressing_mode {
        AddressingMode::Atomic => push_value(s, size, size.truncate(reg(s, src))),
        AddressingMode::Immediate => {
            let s1 = advance_pc(s);
            push_value(s1, size, read_spec(s1.memory, size, s1.pc))
        },
        AddressingMode::MemoryDest => push_value(s, size, read_spec(s.memory, size, reg(s, src))),
        AddressingMode::MemoryDestInc => {
            let a = reg(s, src);
            let s1 = write_mem(s, size, reg(s, stack_pointer()), read_spec(s.memory, size, a));
            let s2 = write_reg(s1, src, a.wrapping_add(size.bytes()));
            write_reg(s2, stack_pointer(), reg(s2, stack_pointer()).wrapping_sub(size.bytes()))
        },
        _ => {
            let a = reg(s, src);
            let s1 = write_mem(s, size, reg(s, stack_pointer()), read_spec(s.memory, size, a));
            let s2 = write_reg(s1, src, a.wrapping_sub(size.bytes()));
            write_reg(s2, stack_pointer(), reg(s2, stack_pointer()).wrapping_sub(size.bytes()))
        },
    }
}

/// Whether Pop has an effect in mode `mode`.
pub open spec fn pop_supports(mode: AddressingMode) -> bool {
    match mode {
        AddressingMode::Atomic | AddressingMode::MemoryDest | AddressingMode::MemoryDestInc
        | AddressingMode::MemoryDestDec => true,
        _ => false,
    }
}

/// The effect of a Pop in a mode it supports.
pub open spec fn pop_step(s: MachineState, p: PopOpcode) -> MachineState {
    let size = p.size;
    let dest = p.destination;
    let v = read_spec(s.memory, size, reg(s, stack_pointer()));
    let s1 = match p.addressing_mode {
        AddressingMode::Atomic => write_reg(s, dest, v),
        AddressingMode::MemoryDest => write_mem(s, size, reg(s, dest), v),
        AddressingMode::MemoryDestInc => write_reg(
            write_mem(s, size, reg(s, dest), v),
            dest,
            reg(s, dest).wrapping_add(size.bytes()),
        ),
        _ => write_reg(
            write_mem(s, size, reg(s, dest), v),
            dest,
            reg(s, dest).wrapping_sub(size.bytes()),
        ),
    };
    write_reg(s1, stack_pointer(), reg(s1, stack_pointer()).wrapping_add(size.bytes()))
}

/// The outcome of executing `op` in state `s`.
pub open spec fn execute_spec(s: MachineState, op: Opcode) -> Result<MachineState, ExecutionError> {
    match op {
        Opcode::Move(m) => Ok(move_step(s, m)),
        Opcode::Lea(l) => if l.destination.is_address() {
            Ok(lea_step(s, l))
        } else {
            Err(ExecutionError::InvalidAddressing)
        },
        Opcode::Push(p) => if push_supports(p.addressing_mode) {
            Ok(push_step(s, p))
        } else {
            Err(ExecutionError::InvalidAddressing)
        },
        Opcode::Pop(p) => if pop_supports(p.addressing_mode) {
            Ok(pop_step(s, p))
        } else {
            Err(ExecutionError::InvalidAddressing)
        },
        Opcode::Unknown => Err(ExecutionError::UnknownOpcode),
    }
}

/// Success or the error of an outcome, without the state.
pub open spec fn outcome(res: Result<MachineState, ExecutionError>) -> Result<(), ExecutionError> {
    match res {
        Ok(_) => Ok(()),
        Err(e) => Err(e),
    }
}

/// The flags after a Move: Zero and Negative describe `value`, every other
/// bit is as it was in `before`.
pub open spec fn flags_describe(before: u16, after: u16, value: u32) -> bool {
    &&& bit_set(after, Flags::Zero.position()) == (value == 0)
    &&& bit_set(after, Flags::Negative.position()) == (value >= SIGN_MASK)
    &&& forall|p: u16|
        p < 16 && p != Flags::Zero.position() && p != Flags::Negative.position() ==> bit_set(
            after,
            p,
        ) == bit_set(before, p)
}

/// The emulated processor: it owns the register file, the status register,
/// the program counter and the memory.
pub struct Cpu {
    pub register_file: RegisterFile,
    pub status_register: StatusRegister,
    pub pc: u32,
    pub memory: Memory,
}

impl Cpu {
    /// The memory has its full size.
    pub open spec fn wf(&self) -> bool {
        self.memory.wf()
    }

    /// The part of the processor that instructions act on.
    pub open spec fn state(&self) -> MachineState {
        MachineState {
            registers: self.register_file.registers@,
            last_written: self.register_file.last_written,
            pc: self.pc,
            memory: self.memory@,
        }
    }

    /// A processor with zeroed registers, memory, flags and program counter.
    pub fn new() -> (r: Cpu)
        ensures
            r.wf(),
            forall|i: int| 0 <= i < 32 ==> r.register_file.registers@[i] == 0,
            forall|i: int| 0 <= i < MEMORY_SIZE ==> r.memory@[i] == 0,
            r.register_file.last_written == 0,
            r.status_register.flags == 0,
            r.pc == 0,
    {
        Cpu {
            register_file: RegisterFile::new(),
            memory: Memory::new(),
            status_register: StatusRegister::new(),
            pc: 0,
        }
    }

    /// Decodes one instruction word; this reads and changes nothing.
    pub fn decoder(&self, to_decode: u32) -> (r: Opcode)
        ensures
            r == decode_spec(to_decode),
    {
        decode(to_decode)
    }

    /// Executes one decoded instruction. On an error nothing changes.
    pub fn execution_stage(&mut self, opcode: Opcode) -> (r: Result<(), ExecutionError>)
        requires
            old(self).wf(),
        ensures
            final(self).wf(),
            match execute_spec(old(self).state(), opcode) {
                Ok(s) => r is Ok && final(self).state() == s,
                Err(e) => r == Err::<(), ExecutionError>(e) && final(self).state() == old(
                    self,
                ).state(),
            },
            opcode is Move ==> flags_describe(
                old(self).status_register.flags,
                final(self).status_register.flags,
                final(self).register_file.last_written,
            ),
            !(opcode is Move) ==> final(self).status_register == old(self).status_register,
    {
        opcode.execute(self)
    }

    /// Copies a program image into memory from address 0 on.
    pub fn load_bytes_into_memory(&mut self, image: &[u8])
        requires
            old(self).wf(),
            image@.len() <= MEMORY_SIZE,
        ensures
            final(self).wf(),
            final(self).memory@ == image@ + old(self).memory@.subrange(
                image@.len() as int,
                MEMORY_SIZE as int,
            ),
            final(self).register_file == old(self).register_file,
            final(self).status_register == old(self).status_register,
            final(self).pc == old(self).pc,
    {
        self.memory.load(image);
    }

    /// One step of a driver: fetches the word at the program counter,
    /// decodes and executes it, then moves the program counter to the word
    /// after the last one the instruction used. On an error nothing changes.
    pub fn cycle(&mut self) -> (r: Result<(), ExecutionError>)
        requires
            old(self).wf(),
        ensures
            final(self).wf(),
            ({
                let op = decode_spec(read_spec(old(self).memory@, OpcodeSize::Dword, old(self).pc));
                match execute_spec(old(self).state(), op) {
                    Ok(s) => r is Ok && final(self).state() == advance_pc(s),
                    Err(e) => r == Err::<(), ExecutionError>(e) && final(self).state() == old(
                        self,
                    ).state(),
                }
            }),
    {
        let word = self.memory.read_dword(self.pc);
        let opcode = self.decoder(word);
        let result = self.execution_stage(opcode);
        if result.is_ok() {
            self.advance_pc();
        }
        result
    }

    fn write_reg(&mut self, r: &Register, v: u32)
        ensures
            final(self).state() == write_reg(old(self).state(), *r, v),
            final(self).memory == old(self).memory,
            final(self).status_register == old(self).status_register,
    {
        self.register_file.write_value(r, v);
    }

    fn write_mem(&mut self, size: &OpcodeSize, address: u32, v: u32)
        requires
            old(self).wf(),
        ensures
            final(self).wf(),
            final(self).state() == write_mem(old(self).state(), *size, address, v),
            final(self).status_register == old(self).status_register,
    {
        let command = size.memory_write_command(address, v);
        proof {
            lemma_write_command(self.memory@, *size, address, v);
        }
        self.memory.memory_bus_write(command);
    }

    fn read_mem(&self, size: &OpcodeSize, address: u32) -> (r: u32)
        requires
            self.wf(),
        ensures
            r == read_spec(self.state().memory, *size, address),
    {
        self.memory.memory_bus_read(size, address)
    }

    fn read_reg(&self, r: &Register) -> (v: u32)
        ensures
            v == reg(self.state(), *r),
    {
        self.register_file.read_value(r)
    }

    fn advance_pc(&mut self)
        ensures
            final(self).state() == advance_pc(old(self).state()),
            final(self).memory == old(self).memory,
            final(self).status_register == old(self).status_register,
    {
        self.pc = self.pc.wrapping_add(4);
    }


    /// Recomputes Zero and Negative from the last written register value.
    fn update_flags(&mut self)
        ensures
            final(self).state() == old(self).state(),
            final(self).memory == old(self).memory,
            final(self).register_file == old(self).register_file,
            flags_describe(
                old(self).status_register.flags,
                final(self).status_register.flags,
                final(self).register_file.last_written,
            ),
    {
        let value = self.register_file.last_written_value();
        if value == 0 {
            self.status_register.raise(Flags::Zero);
        } else {
            self.status_register.clear(Flags::Zero);
        }
        assert((value & SIGN_MASK == SIGN_MASK) == (value >= 0x8000_0000u32)) by (bit_vector);
        if value & SIGN_MASK == SIGN_MASK {
            self.status_register.raise(Flags::Negative);
        } else {
            self.status_register.clear(Flags::Negative);
        }
    }


    fn push_value(&mut self, size: &OpcodeSize, v: u32)
        requires
            old(self).wf(),
        ensures
            final(self).wf(),
            final(self).status_register == old(self).status_register,
            final(self).state() == push_value(old(self).state(), *size, v),
    {
        let sp = Register::A15;
        let address = self.read_reg(&sp);
        self.write_mem(size, address, v);
        let sp_value = self.read_reg(&sp);
        self.write_reg(&sp, sp_value.wrapping_sub(size.size_in_bytes()));
    }


}

impl Opcode {
    /// Executes the instruction on `cpu`. On an error nothing changes.
    pub fn execute(&self, cpu: &mut Cpu) -> (r: Result<(), ExecutionError>)
        requires
            old(cpu).wf(),
        ensures
            final(cpu).wf(),
            match execute_spec(old(cpu).state(), *self) {
                Ok(s) => r is Ok && final(cpu).state() == s,
                Err(e) => r == Err::<(), ExecutionError>(e) && final(cpu).state() == old(cpu).state(),
            },
            *self is Move ==> flags_describe(
                old(cpu).status_register.flags,
                final(cpu).status_register.flags,
                final(cpu).register_file.last_written,
            ),
            !(*self is Move) ==> final(cpu).status_register == old(cpu).status_register,
    {
        match self {
            Opcode::Move(m) => {
                m.execute(cpu);
                Ok(())
            },
            Opcode::Lea(l) => l.execute(cpu),
            Opcode::Push(p) => p.execute(cpu),
            Opcode::Pop(p) => p.execute(cpu),
            Opcode::Unknown => Err(ExecutionError::UnknownOpcode),
        }
    }
}

impl MoveOpcode {
    /// Performs the Move on `cpu`, then sets Zero and Negative from the
    /// last written register value.
    pub fn execute(&self, cpu: &mut Cpu)
        requires
            old(cpu).wf(),
        ensures
            final(cpu).wf(),
            final(cpu).state() == move_step(old(cpu).state(), *self),
            flags_describe(
                old(cpu).status_register.flags,
                final(cpu).status_register.flags,
                final(cpu).register_file.last_written,
            ),
    {
        let size = self.size;
        let step = size.size_in_bytes();
        match self.addr_mode {
            AddressingMode::Atomic => {
                let raw_value = cpu.read_reg(&self.source);
                let data = size.retrieve_data(raw_value);
                cpu.write_reg(&self.destination, data);
            },
            AddressingMode::Immediate => {
                cpu.advance_pc();
                let value = cpu.memory.read_dword(cpu.pc);
                cpu.write_reg(&self.destination, value);
            },
            AddressingMode::MemoryDest => {
                let data = size.retrieve_data(cpu.read_reg(&self.source));
                let address = cpu.read_reg(&self.destination);
                cpu.write_mem(&size, address, data);
            },
            AddressingMode::MemorySrc => {
                let address = cpu.read_reg(&self.source);
                let data = cpu.read_mem(&size, address);
                cpu.write_reg(&self.destination, data);
            },
            AddressingMode::MemoryDestInc => {
                let data = size.retrieve_data(cpu.read_reg(&self.source));
                let address = cpu.read_reg(&self.destination);
                cpu.write_mem(&size, address, data);
                cpu.write_reg(&self.destination, address.wrapping_add(step));
            },
            AddressingMode::MemoryDestDec => {
                let data = size.retrieve_data(cpu.read_reg(&self.source));
                let address = cpu.read_reg(&self.destination);
                cpu.write_mem(&size, address, data);
                cpu.write_reg(&self.destination, address.wrapping_sub(step));
            },
            AddressingMode::MemorySrcInc => {
                let address = cpu.read_reg(&self.source);
                let data = cpu.read_mem(&size, address);
                cpu.write_reg(&self.destination, data);
                cpu.write_reg(&self.source, address.wrapping_add(step));
            },
            AddressingMode::MemorySrcDec => {
                let address = cpu.read_reg(&self.source);
                let data = cpu.read_mem(&size, address);
                cpu.write_reg(&self.destination, data);
                cpu.write_reg(&self.source, address.wrapping_sub(step));
            },
        }
        cpu.update_flags();
    }
}

impl LeaOpcode {
    /// Loads the word after the instruction into the destination address
    /// register; a data-register destination is refused and changes nothing.
    pub fn execute(&self, cpu: &mut Cpu) -> (r: Result<(), ExecutionError>)
        requires
            old(cpu).wf(),
        ensures
            final(cpu).wf(),
            final(cpu).status_register == old(cpu).status_register,
            r == outcome(execute_spec(old(cpu).state(), Opcode::Lea(*self))),
            r is Ok ==> final(cpu).state() == lea_step(old(cpu).state(), *self),
            r is Err ==> final(cpu).state() == old(cpu).state(),
    {
        if !self.destination.is_address_register() {
            return Err(ExecutionError::InvalidAddressing);
        }
        cpu.advance_pc();
        let address = cpu.memory.read_dword(cpu.pc);
        cpu.write_reg(&self.destination, address);
        Ok(())
    }
}

impl PushOpcode {
    /// Stores the operand at the stack pointer (A15) and moves it down; a
    /// mode Push lacks is refused and changes nothing.
    pub fn execute(&self, cpu: &mut Cpu) -> (r: Result<(), ExecutionError>)
        requires
            old(cpu).wf(),
        ensures
            final(cpu).wf(),
            final(cpu).status_register == old(cpu).status_register,
            r == outcome(execute_spec(old(cpu).state(), Opcode::Push(*self))),
            r is Ok ==> final(cpu).state() == push_step(old(cpu).state(), *self),
            r is Err ==> final(cpu).state() == old(cpu).state(),
    {
        let sp = Register::A15;
        let size = self.size;
        let step = size.size_in_bytes();
        match self.addressing_mode {
            AddressingMode::Atomic => {
                let data = size.retrieve_data(cpu.read_reg(&self.source));
                cpu.push_value(&size, data);
            },
            AddressingMode::Immediate => {
                cpu.advance_pc();
                let data = cpu.read_mem(&size, cpu.pc);
                cpu.push_value(&size, data);
            },
            AddressingMode::MemoryDest => {
                let address = cpu.read_reg(&self.source);
                let data = cpu.read_mem(&size, address);
                cpu.push_value(&size, data);
            },
            AddressingMode::MemoryDestInc => {
                let address = cpu.read_reg(&self.source);
                let data = cpu.read_mem(&size, address);
                let top = cpu.read_reg(&sp);
                cpu.write_mem(&size, top, data);
                cpu.write_reg(&self.source, address.wrapping_add(step));
                let sp_value = cpu.read_reg(&sp);
                cpu.write_reg(&sp, sp_value.wrapping_sub(step));
            },
            AddressingMode::MemoryDestDec => {
                let address = cpu.read_reg(&self.source);
                let data = cpu.read_mem(&size, address);
                let top = cpu.read_reg(&sp);
                cpu.write_mem(&size, top, data);
                cpu.write_reg(&self.source, address.wrapping_sub(step));
                let sp_value = cpu.read_reg(&sp);
                cpu.write_reg(&sp, sp_value.wrapping_sub(step));
            },
            _ => {
                return Err(ExecutionError::InvalidAddressing);
            },
        }
        Ok(())
    }
}

impl PopOpcode {
    /// Loads the value at the stack pointer (A15) into the destination and
    /// moves it up; a mode Pop lacks is refused and changes nothing.
    pub fn execute(&self, cpu: &mut Cpu) -> (r: Result<(), ExecutionError>)
        requires
            old(cpu).wf(),
        ensures
            final(cpu).wf(),
            final(cpu).status_register == old(cpu).status_register,
            r == outcome(execute_spec(old(cpu).state(), Opcode::Pop(*self))),
            r is Ok ==> final(cpu).state() == pop_step(old(cpu).state(), *self),
            r is Err ==> final(cpu).state() == old(cpu).state(),
    {
        let sp = Register::A15;
        let size = self.size;
        let step = size.size_in_bytes();
        if !pop_mode_supported(&self.addressing_mode) {
            return Err(ExecutionError::InvalidAddressing);
        }
        let top = cpu.read_reg(&sp);
        let value = cpu.read_mem(&size, top);
        match self.addressing_mode {
            AddressingMode::Atomic => {
                cpu.write_reg(&self.destination, value);
            },
            AddressingMode::MemoryDest => {
                let target = cpu.read_reg(&self.destination);
                cpu.write_mem(&size, target, value);
            },
            AddressingMode::MemoryDestInc => {
                let target = cpu.read_reg(&self.destination);
                cpu.write_mem(&size, target, value);
                cpu.write_reg(&self.destination, target.wrapping_add(step));
            },
            _ => {
                let target = cpu.read_reg(&self.destination);
                cpu.write_mem(&size, target, value);
                cpu.write_reg(&self.destination, target.wrapping_sub(step));
            },
        }
        let sp_value = cpu.read_reg(&sp);
        cpu.write_reg(&sp, sp_value.wrapping_add(step));
        Ok(())
    }
}

fn pop_mode_supported(mode: &AddressingMode) -> (r: bool)
    ensures
        r == pop_supports(*mode),
{
    match mode {
        AddressingMode::Atomic | AddressingMode::MemoryDest | AddressingMode::MemoryDestInc
        | AddressingMode::MemoryDestDec => true,
        _ => false,
    }
}

} // verus!

verus! {

/// Lea into an address register loads the word that follows the
/// instruction: with the program counter at `P`, the destination ends up
/// holding the word stored at `P + 4`, and the program counter is `P + 4`.
pub proof fn lemma_lea_loads_trailing_word(s: MachineState, l: LeaOpcode)
    requires
        s.registers.len() == 32,
        l.destination.is_address(),
    ensures
        execute_spec(s, Opcode::Lea(l)) == Ok::<MachineState, ExecutionError>(lea_step(s, l)),
        lea_step(s, l).pc == s.pc.wrapping_add(4),
        reg(lea_step(s, l), l.destination) == read_spec(s.memory, OpcodeSize::Dword, s.pc.wrapping_add(4)),
        lea_step(s, l).memory == s.memory,
{
}

/// After a Move the two computed flags agree with the value last written:
/// writing zero raises Zero and clears Negative, writing a value with bit 31
/// set raises Negative and clears Zero, and no value raises both.
pub proof fn lemma_move_flags_consistent(before: u16, after: u16, value: u32)
    requires
        flags_describe(before, after, value),
    ensures
        value == 0 ==> bit_set(after, Flags::Zero.position()) && !bit_set(
            after,
            Flags::Negative.position(),
        ),
        value >= SIGN_MASK ==> bit_set(after, Flags::Negative.position()) && !bit_set(
            after,
            Flags::Zero.position(),
        ),
        !(bit_set(after, Flags::Zero.position()) && bit_set(after, Flags::Negative.position())),
{
}

} // verus!
