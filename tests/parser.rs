use dielectric::assembler::{AssembleError, Assembler, AssemblerError};
use dielectric::decoder::decode;
use dielectric::lexer::TokenType;
use dielectric::opcode::{LeaOpcode, MoveOpcode, Opcode};
use dielectric::addressing_modes::AddressingMode;
use dielectric::opcode_size::OpcodeSize;
use dielectric::parser::{Ast, MemoryModes, Parser, ParserError, RegisterModes};
use dielectric::register::Register;

#[test]
fn test_parse_move() {
    let source = "move.dw D0, A2";
    let mut parser = Parser::new(source);
    let node = parser.parse();
    assert!(matches!(node, Ok(Ast::Move { .. })));
    match node {
        Ok(Ast::Move { size, dest, src }) => {
            assert!(matches!(size.as_ref(), Ast::Size { .. }));
            assert!(matches!(dest.as_ref(), Ast::Register { .. }));
            assert!(matches!(src.as_ref(), Ast::Register { .. }));
        }
        _ => unreachable!(),
    }
}

#[test]
fn test_parse_move_error_missing_dot() {
    let source = "move D0, A2";
    let mut parser = Parser::new(source);
    let node = parser.parse();
    assert!(matches!(node, Err(ParserError::UnexpectedSymbol(_, _, _, _))))
}

#[test]
fn test_parse_move_error_missing_size() {
    let source = "move. D0, A2";
    let mut parser = Parser::new(source);
    let node = parser.parse();
    assert!(matches!(node, Err(ParserError::InvalidOpcodeSize(_, _, _))))
}

#[test]
fn test_parse_move_error_faulty_destination() {
    let source = "move.dw hello, A2";
    let mut parser = Parser::new(source);
    let node = parser.parse();
    assert!(matches!(node, Err(ParserError::InvalidOperand(_, _, _))))
}

#[test]
fn test_parse_move_error_faulty_source() {
    let source = "move.dw D0, +";
    let mut parser = Parser::new(source);
    let node = parser.parse();
    assert!(matches!(node, Err(ParserError::InvalidOperand(_, _, _))))
}

#[test]
fn test_parse_move_immediate_value() {
    let source = "move.dw D0, $AABBCCDD";
    let mut parser = Parser::new(source);
    let node = parser.parse();
    assert!(matches!(node, Ok(Ast::Move { .. })));
    match node {
        Ok(Ast::Move { size, dest, src }) => {
            assert!(matches!(size.as_ref(), Ast::Size { .. }));
            assert!(matches!(dest.as_ref(), Ast::Register { .. }));
            assert!(matches!(src.as_ref(), Ast::Number { .. }));
        }
        _ => unreachable!(),
    }
}

#[test]
fn parse_error_carries_line_and_position() {
    let mut parser = Parser::new("\n  move.dw D0 A2");
    match parser.parse() {
        Err(ParserError::MissingSeperator(line, position, expected, got)) => {
            assert_eq!(line, 2);
            assert_eq!(position, 14);
            assert_eq!(expected, ",");
            assert_eq!(got, "A2");
        }
        other => panic!("unexpected {:?}", other),
    }
}

#[test]
fn parse_labels_lea_nop_and_end() {
    let mut parser = Parser::new("start: lea.dw A3, #16\nnop\n");
    match parser.parse() {
        Ok(Ast::LabelDefinition { repr }) => assert_eq!(repr.get_repr(), "start"),
        other => panic!("unexpected {:?}", other),
    }
    match parser.parse() {
        Ok(Ast::Lea { dest, src }) => {
            assert!(matches!(dest.as_ref(), Ast::Register { repr } if repr.token_type() == TokenType::A3));
            assert!(matches!(src.as_ref(), Ast::Number { repr } if repr.token_type() == TokenType::ByteDecimalNumber(16)));
        }
        other => panic!("unexpected {:?}", other),
    }
    assert!(matches!(parser.parse(), Ok(Ast::Nop { .. })));
    assert!(matches!(parser.parse(), Ok(Ast::ProgramEnd)));
    assert!(matches!(parser.parse(), Ok(Ast::ProgramEnd)));
}

#[test]
fn parse_lea_rejects_other_sizes_and_data_registers() {
    let mut parser = Parser::new("lea.w A0, #1");
    assert!(matches!(parser.parse(), Err(ParserError::IllegalSize(_, _, _, _))));
    let mut parser = Parser::new("lea.dw D0, #1");
    assert!(matches!(parser.parse(), Err(ParserError::InvalidOperand(_, _, _))));
    let mut parser = Parser::new("label D0");
    assert!(matches!(parser.parse(), Err(ParserError::UnexpectedSymbol(_, _, _, _))));
    let mut parser = Parser::new(", move");
    assert!(matches!(parser.parse(), Err(ParserError::InvalidOperand(1, 0, _))));
}

#[test]
fn assembled_move_decodes_to_the_move() {
    let mut parser = Parser::new("move.w a1, d7");
    let ast = parser.parse().unwrap();
    let mut assembler = Assembler::new();
    let words = assembler.encode_statement(&ast).unwrap();
    assert_eq!(words.len(), 1);
    assert_eq!(words[0], (1 << 30) | (7 << 19) | (17 << 14) | 1);
    assert_eq!(
        decode(words[0]),
        Opcode::Move(MoveOpcode {
            addr_mode: AddressingMode::Atomic,
            destination: Register::A1,
            source: Register::D7,
            offset: 0,
            size: OpcodeSize::Word,
        })
    );
    assert_eq!(assembler.position(), 4);
}

#[test]
fn assembled_immediates_carry_operand_word() {
    let mut parser = Parser::new("move.dw D2, #-2\nlea.dw A4, $DEADBEEF\nnop\nhere:");
    let mut assembler = Assembler::new();
    let words = assembler.encode_statement(&parser.parse().unwrap()).unwrap();
    assert_eq!(words, vec![(2 << 30) | (2 << 14) | (1 << 8) | 1, 0xFFFF_FFFE]);
    let words = assembler.encode_statement(&parser.parse().unwrap()).unwrap();
    assert_eq!(words, vec![(2 << 30) | (20 << 14) | (1 << 8) | 2, 0xDEADBEEF]);
    assert_eq!(
        decode(words[0]),
        Opcode::Lea(LeaOpcode {
            addr_mode: AddressingMode::Immediate,
            destination: Register::A4,
            offset: 0,
            size: OpcodeSize::Dword,
        })
    );
    assert_eq!(assembler.encode_statement(&parser.parse().unwrap()), Ok(vec![0]));
    assert_eq!(assembler.encode_statement(&parser.parse().unwrap()), Ok(vec![]));
    assert_eq!(assembler.position(), 20);
    assert_eq!(assembler.encode_statement(&Ast::ProgramEnd), Err(AssemblerError::UnsupportedStatement));
}

#[test]
fn encoder_fields() {
    assert_eq!(Assembler::encode_register(TokenType::D0), 0);
    assert_eq!(Assembler::encode_register(TokenType::A15), 31);
    let mut parser = Parser::new("move.b A2, #7");
    match parser.parse().unwrap() {
        Ast::Move { size, dest, src } => {
            assert_eq!(Assembler::generate_operation_size(&size), 0);
            assert_eq!(Assembler::encode_dest(&dest), 18 << 14);
            assert_eq!(Assembler::encode_source(&src), (1 << 8, Some(TokenType::ByteDecimalNumber(7))));
        }
        other => panic!("unexpected {:?}", other),
    }
}

#[test]
fn register_mode_descriptions() {
    assert_eq!(RegisterModes::DataRegisters.description(), "Data Register Target: D0..D15");
    assert_eq!(RegisterModes::AddressRegisters.description(), "Address Register Target: A0..A15");
    assert_ne!(MemoryModes::Direct, MemoryModes::ImmediateValue);
}

#[test]
fn assemble_whole_program_with_labels() {
    let mut assembler = Assembler::new();
    let words = assembler
        .assemble("start:\n  move.dw D1, #7\nloop: nop\n  move.b d2, a0\nloop:")
        .unwrap();
    assert_eq!(
        words,
        vec![(2 << 30) | (1 << 14) | (1 << 8) | 1, 7, 0, (16 << 19) | (2 << 14) | 1]
    );
    assert_eq!(assembler.position(), 16);
    assert_eq!(assembler.label_address("start"), Some(0));
    assert_eq!(assembler.label_address("loop"), Some(16));
    assert_eq!(assembler.label_address("missing"), None);
}

#[test]
fn assemble_reports_first_error() {
    let mut assembler = Assembler::new();
    match assembler.assemble("nop\nmove.dw D0 D1") {
        Err(AssembleError::Parse(ParserError::MissingSeperator(line, _, _, _))) => assert_eq!(line, 2),
        other => panic!("unexpected {:?}", other),
    }
    let mut assembler = Assembler::new();
    assert!(matches!(assembler.assemble(""), Ok(ref w) if w.is_empty()));
}
