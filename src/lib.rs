/// Addressing modes: how an instruction's operands are fetched and stored.
pub mod addressing_modes;
/// Assembler back end: parsed statements to instruction words.
pub mod assembler;
/// The processor: decode and execute against registers, flags and memory.
pub mod cpu;
/// Instruction word layout and decoding.
pub mod decoder;
/// Assembler front end: source text to tokens.
pub mod lexer;
/// Byte-addressable, big-endian memory.
pub mod memory;
/// Decoded instructions and their encoding.
pub mod opcode;
/// Operand sizes: byte, word and dword.
pub mod opcode_size;
/// Assembler grammar: tokens to statements.
pub mod parser;
/// Register names and ordinals.
pub mod register;
/// The general-purpose register file.
pub mod register_file;
/// Condition flags.
pub mod status_register;
