use vstd::prelude::*;
use vstd::string::StringSliceAdditionalSpecFns;
use crate::addressing_modes::AddressingMode;
use crate::decoder::{decode_spec, lemma_encode_then_decode};
use crate::lexer::{
    is_address_register_token, is_number_token, is_register_token, lemma_measure_steps,
    stream_measure, type_at, TokenType,
};
use crate::opcode::{layout, MoveOpcode, Opcode, LeaOpcode, OPCODE_LEA, OPCODE_MOVE};
use crate::opcode_size::OpcodeSize;
use crate::parser::{
    ast_shape, is_size_token, lemma_shifted_at, parse_failure, statement_span, Ast, Parser,
    ParserError,
};
use crate::register::{lemma_register_ordinal_bijection, Register};

verus! {

/// Bit position of the destination register field.
const DEST_SHIFT: u32 = 14;

/// Bit position of the source register field.
const SRC_SHIFT: u32 = 19;

/// Bit position of the size field.
const SIZE_SHIFT: u32 = 30;

/// Bit position of the addressing-mode field.
const MODE_SHIFT: u32 = 8;

/// The ordinal of a register token: D0..D15 are 0..15, A0..A15 are 16..31.
pub open spec fn token_ordinal(t: TokenType) -> u32 {
    match t {
        TokenType::D0 => 0,
        TokenType::D1 => 1,
        TokenType::D2 => 2,
        TokenType::D3 => 3,
        TokenType::D4 => 4,
        TokenType::D5 => 5,
        TokenType::D6 => 6,
        TokenType::D7 => 7,
        TokenType::D8 => 8,
        TokenType::D9 => 9,
        TokenType::D10 => 10,
        TokenType::D11 => 11,
        TokenType::D12 => 12,
        TokenType::D13 => 13,
        TokenType::D14 => 14,
        TokenType::D15 => 15,
        TokenType::A0 => 16,
        TokenType::A1 => 17,
        TokenType::A2 => 18,
        TokenType::A3 => 19,
        TokenType::A4 => 20,
        TokenType::A5 => 21,
        TokenType::A6 => 22,
        TokenType::A7 => 23,
        TokenType::A8 => 24,
        TokenType::A9 => 25,
        TokenType::A10 => 26,
        TokenType::A11 => 27,
        TokenType::A12 => 28,
        TokenType::A13 => 29,
        TokenType::A14 => 30,
        TokenType::A15 => 31,
        _ => 0,
    }
}

/// The two-bit size pattern of a size token.
pub open spec fn size_encoding(t: TokenType) -> u32 {
    match t {
        TokenType::Byte => 0,
        TokenType::Word => 1,
        _ => 2,
    }
}

/// The operand word that follows an instruction with a numeric literal:
/// the literal's value as 32 bits, sign-extended for decimal literals.
pub open spec fn immediate_word(t: TokenType) -> u32 {
    match t {
        TokenType::ByteHexNumber(v) => v as u32,
        TokenType::ByteDecimalNumber(v) => v as u32,
        TokenType::ByteBinaryNumber(v) => v as u32,
        TokenType::WordHexNumber(v) => v as u32,
        TokenType::WordDecimalNumber(v) => v as u32,
        TokenType::WordBinaryNumber(v) => v as u32,
        TokenType::DwordHexNumber(v) => v,
        TokenType::DwordDecimalNumber(v) => v as u32,
        TokenType::DwordBinaryNumber(v) => v,
        _ => 0,
    }
}

/// The words a statement assembles to, if it is one the assembler encodes:
/// a Move between registers is one word; a Move or Lea with a literal is
/// the instruction word in Immediate mode followed by the literal; Nop is a
/// zero word; a label definition emits nothing.
pub open spec fn statement_words(ast: Ast) -> Option<Seq<u32>> {
    match ast {
        Ast::Move { size, dest, src } => match (*size, *dest, *src) {
            (Ast::Size { repr: s }, Ast::Register { repr: d }, Ast::Register { repr: r }) => if is_size_token(
                s.token_type,
            ) && is_register_token(d.token_type) && is_register_token(r.token_type) {
                Some(
                    seq![
                        layout(
                            OPCODE_MOVE,
                            0,
                            token_ordinal(d.token_type),
                            token_ordinal(r.token_type),
                            0,
                            size_encoding(s.token_type),
                        ),
                    ],
                )
            } else {
                None
            },
            (Ast::Size { repr: s }, Ast::Register { repr: d }, Ast::Number { repr: n }) => if is_size_token(
                s.token_type,
            ) && is_register_token(d.token_type) && is_number_token(n.token_type) {
                Some(
                    seq![
                        layout(
                            OPCODE_MOVE,
                            1,
                            token_ordinal(d.token_type),
                            0,
                            0,
                            size_encoding(s.token_type),
                        ),
                        immediate_word(n.token_type),
                    ],
                )
            } else {
                None
            },
            _ => None,
        },
        Ast::Lea { dest, src } => match (*dest, *src) {
            (Ast::Register { repr: d }, Ast::Number { repr: n }) => if is_register_token(
                d.token_type,
            ) && is_number_token(n.token_type) {
                Some(
                    seq![
                        layout(OPCODE_LEA, 1, token_ordinal(d.token_type), 0, 0, 2),
                        immediate_word(n.token_type),
                    ],
                )
            } else {
                None
            },
            _ => None,
        },
        Ast::Nop { .. } => Some(seq![0u32]),
        Ast::LabelDefinition { .. } => Some(Seq::empty()),
        _ => None,
    }
}

/// Why a statement could not be assembled.
#[derive(Debug, PartialEq, Eq, Clone, Copy, Structural)]
pub enum AssemblerError {
    /// The statement has a form the encoder does not produce words for.
    UnsupportedStatement,
    /// The program would not fit in the address range.
    ProgramTooLarge,
}

/// Turns parsed statements into instruction words, remembering where each
/// label was defined.
pub struct Assembler {
    label_definitions: Vec<(String, usize)>,
    position: usize,
}

impl Assembler {
    /// The byte offset of the next word to be emitted.
    pub closed spec fn offset(&self) -> int {
        self.position as int
    }

    /// The labels defined so far, with their byte offsets, in the order of
    /// their definitions.
    pub closed spec fn labels(&self) -> Seq<(Seq<char>, usize)> {
        self.label_definitions@.map_values(|d: (String, usize)| (d.0@, d.1))
    }

    /// An assembler at offset 0 with no labels.
    pub fn new() -> (r: Self)
        ensures
            r.offset() == 0,
            r.labels() == Seq::<(Seq<char>, usize)>::empty(),
    {
        let r = Assembler { label_definitions: Vec::new(), position: 0 };
        assert(r.labels() =~= Seq::<(Seq<char>, usize)>::empty());
        r
    }

    /// The offset of the latest definition of label `name`, if any.
    pub fn label_address(&self, name: &str) -> (r: Option<usize>)
        ensures
            r matches Some(a) ==> exists|i: int|
                0 <= i < self.labels().len() && #[trigger] self.labels()[i] == (name@, a) && forall|
                    j: int,
                |
                    i < j < self.labels().len() ==> (#[trigger] self.labels()[j]).0 != name@,
            r is None ==> forall|i: int|
                0 <= i < self.labels().len() ==> (#[trigger] self.labels()[i]).0 != name@,
    {
        let key = name.to_owned();
        let mut i: usize = self.label_definitions.len();
        while i > 0
            invariant
                0 <= i <= self.label_definitions@.len(),
                key@ == name@,
                forall|j: int| i <= j < self.labels().len() ==> (#[trigger] self.labels()[j]).0 != name@,
            decreases i,
        {
            i = i - 1;
            if self.label_definitions[i].0 == key {
                assert(self.labels()[i as int] == (name@, self.label_definitions@[i as int].1));
                return Some(self.label_definitions[i].1);
            }
        }
        None
    }

    /// The byte offset of the next word to be emitted.
    pub fn position(&self) -> (r: usize)
        ensures
            r == self.offset(),
    {
        self.position
    }

    /// The ordinal of a register token.
    pub fn encode_register(tt: TokenType) -> (r: u32)
        requires
            is_register_token(tt),
        ensures
            r == token_ordinal(tt),
            r < 32,
    {
        match tt {
            TokenType::D0 => 0,
            TokenType::D1 => 1,
            TokenType::D2 => 2,
            TokenType::D3 => 3,
            TokenType::D4 => 4,
            TokenType::D5 => 5,
            TokenType::D6 => 6,
            TokenType::D7 => 7,
            TokenType::D8 => 8,
            TokenType::D9 => 9,
            TokenType::D10 => 10,
            TokenType::D11 => 11,
            TokenType::D12 => 12,
            TokenType::D13 => 13,
            TokenType::D14 => 14,
            TokenType::D15 => 15,
            TokenType::A0 => 16,
            TokenType::A1 => 17,
            TokenType::A2 => 18,
            TokenType::A3 => 19,
            TokenType::A4 => 20,
            TokenType::A5 => 21,
            TokenType::A6 => 22,
            TokenType::A7 => 23,
            TokenType::A8 => 24,
            TokenType::A9 => 25,
            TokenType::A10 => 26,
            TokenType::A11 => 27,
            TokenType::A12 => 28,
            TokenType::A13 => 29,
            TokenType::A14 => 30,
            TokenType::A15 => 31,
            _ => 0,
        }
    }

    /// The destination register field of an instruction word.
    pub fn encode_dest(ast: &Ast) -> (r: u32)
        requires
            ast matches Ast::Register { repr } && is_register_token(repr.token_type),
        ensures
            ast matches Ast::Register { repr } && r == token_ordinal(repr.token_type) << 14u32,
    {
        match ast {
            Ast::Register { repr } => Assembler::encode_register(repr.token_type()) << DEST_SHIFT,
            _ => 0,
        }
    }

    /// The source part of an instruction word: the source register field
    /// for a register, or the Immediate mode for a literal together with
    /// the literal's token, whose value follows as its own word.
    pub fn encode_source(ast: &Ast) -> (r: (u32, Option<TokenType>))
        requires
            (ast matches Ast::Register { repr } && is_register_token(repr.token_type))
                || (ast matches Ast::Number { repr } && is_number_token(repr.token_type)),
        ensures
            ast matches Ast::Register { repr } ==> r == (token_ordinal(repr.token_type) << 19u32, None::<TokenType>),
            ast matches Ast::Number { repr } ==> r == (1u32 << 8u32, Some(repr.token_type)),
    {
        match ast {
            Ast::Register { repr } => (Assembler::encode_register(repr.token_type()) << SRC_SHIFT, None),
            Ast::Number { repr } => (1u32 << MODE_SHIFT, Some(repr.token_type())),
            _ => (0, None),
        }
    }

    /// The size field of an instruction word.
    pub fn generate_operation_size(ast: &Ast) -> (r: u32)
        requires
            ast matches Ast::Size { repr } && is_size_token(repr.token_type),
        ensures
            ast matches Ast::Size { repr } && r == size_encoding(repr.token_type) << 30u32,
    {
        match ast {
            Ast::Size { repr } => match repr.token_type() {
                TokenType::Byte => 0u32 << SIZE_SHIFT,
                TokenType::Word => 1u32 << SIZE_SHIFT,
                _ => 2u32 << SIZE_SHIFT,
            },
            _ => 0,
        }
    }

    fn generate_operation_opcode(tt: TokenType) -> (r: u32)
        requires
            tt is Move || tt is Lea,
        ensures
            tt is Move ==> r == OPCODE_MOVE,
            tt is Lea ==> r == OPCODE_LEA,
    {
        match tt {
            TokenType::Move => OPCODE_MOVE,
            _ => OPCODE_LEA,
        }
    }
}

/// The type of a size leaf with a size token.
fn size_leaf(ast: &Ast) -> (r: Option<TokenType>)
    ensures
        r == (if ast matches Ast::Size { repr } && is_size_token(repr.token_type) {
            Some(ast->Size_repr.token_type)
        } else {
            None
        }),
{
    match ast {
        Ast::Size { repr } => match repr.token_type() {
            TokenType::Byte | TokenType::Word | TokenType::Dword => Some(repr.token_type()),
            _ => None,
        },
        _ => None,
    }
}

/// The type of a register leaf with a register token.
fn register_leaf(ast: &Ast) -> (r: Option<TokenType>)
    ensures
        r == (if ast matches Ast::Register { repr } && is_register_token(repr.token_type) {
            Some(ast->Register_repr.token_type)
        } else {
            None
        }),
{
    match ast {
        Ast::Register { repr } => match repr.token_type() {
            TokenType::D0
            | TokenType::D1
            | TokenType::D2
            | TokenType::D3
            | TokenType::D4
            | TokenType::D5
            | TokenType::D6
            | TokenType::D7
            | TokenType::D8
            | TokenType::D9
            | TokenType::D10
            | TokenType::D11
            | TokenType::D12
            | TokenType::D13
            | TokenType::D14
            | TokenType::D15
            | TokenType::A0
            | TokenType::A1
            | TokenType::A2
            | TokenType::A3
            | TokenType::A4
            | TokenType::A5
            | TokenType::A6
            | TokenType::A7
            | TokenType::A8
            | TokenType::A9
            | TokenType::A10
            | TokenType::A11
            | TokenType::A12
            | TokenType::A13
            | TokenType::A14
            | TokenType::A15 => Some(repr.token_type()),
            _ => None,
        },
        _ => None,
    }
}

/// The type of a number leaf with a numeric token.
fn number_leaf(ast: &Ast) -> (r: Option<TokenType>)
    ensures
        r == (if ast matches Ast::Number { repr } && is_number_token(repr.token_type) {
            Some(ast->Number_repr.token_type)
        } else {
            None
        }),
{
    match ast {
        Ast::Number { repr } => if repr.is_number() {
            Some(repr.token_type())
        } else {
            None
        },
        _ => None,
    }
}

/// The operand word of a numeric literal.
fn immediate_value(tt: TokenType) -> (r: u32)
    ensures
        r == immediate_word(tt),
{
    match tt {
        TokenType::ByteHexNumber(v) => v as u32,
        TokenType::ByteDecimalNumber(v) => v as u32,
        TokenType::ByteBinaryNumber(v) => v as u32,
        TokenType::WordHexNumber(v) => v as u32,
        TokenType::WordDecimalNumber(v) => v as u32,
        TokenType::WordBinaryNumber(v) => v as u32,
        TokenType::DwordHexNumber(v) => v,
        TokenType::DwordDecimalNumber(v) => v as u32,
        TokenType::DwordBinaryNumber(v) => v,
        _ => 0,
    }
}

impl Assembler {
    /// Assembles one parsed statement into the words it stands for, and
    /// records a label definition at the current offset. The offset
    /// advances by four bytes per word.
    pub fn encode_statement(&mut self, ast: &Ast) -> (r: Result<Vec<u32>, AssemblerError>)
        ensures
            old(self).offset() > usize::MAX - 8 ==> r == Err::<Vec<u32>, AssemblerError>(
                AssemblerError::ProgramTooLarge,
            ) && final(self).offset() == old(self).offset(),
            old(self).offset() <= usize::MAX - 8 ==> match statement_words(*ast) {
                Some(ws) => r matches Ok(v) && v@ == ws && final(self).offset() == old(self).offset()
                    + 4 * ws.len(),
                None => r == Err::<Vec<u32>, AssemblerError>(AssemblerError::UnsupportedStatement)
                    && final(self).offset() == old(self).offset(),
            },
            old(self).offset() <= usize::MAX - 8 ==> (ast matches Ast::LabelDefinition { repr }
                ==> final(self).labels() == old(self).labels().push(
                (repr.repr@, old(self).offset() as usize),
            )),
            old(self).offset() > usize::MAX - 8 ==> final(self).labels() == old(self).labels(),
            !(ast is LabelDefinition) ==> final(self).labels() == old(self).labels(),
    {
        if self.position > usize::MAX - 8 {
            return Err(AssemblerError::ProgramTooLarge);
        }
        let words: Vec<u32> = match ast {
            Ast::Move { size, dest, src } => {
                let s = match size_leaf(size) {
                    Some(s) => s,
                    None => {
                        return Err(AssemblerError::UnsupportedStatement);
                    },
                };
                let d = match register_leaf(dest) {
                    Some(d) => d,
                    None => {
                        return Err(AssemblerError::UnsupportedStatement);
                    },
                };
                let size_bits = Assembler::generate_operation_size(size);
                let dest_bits = Assembler::encode_dest(dest);
                let opcode = Assembler::generate_operation_opcode(TokenType::Move);
                let ghost sz = size_encoding(s);
                let ghost dd = token_ordinal(d);
                if let Some(r) = register_leaf(src) {
                    let (src_bits, _) = Assembler::encode_source(src);
                    let ghost rr = token_ordinal(r);
                    assert(sz < 3 && dd < 32 && rr < 32 ==> (sz << 30u32) | (rr << 19u32) | (dd
                        << 14u32) | 1u32 == layout(1, 0, dd, rr, 0, sz)) by (bit_vector);
                    vec![size_bits | src_bits | dest_bits | opcode]
                } else if let Some(n) = number_leaf(src) {
                    let (mode_bits, _) = Assembler::encode_source(src);
                    assert(sz < 3 && dd < 32 ==> (sz << 30u32) | (1u32 << 8u32) | (dd << 14u32)
                        | 1u32 == layout(1, 1, dd, 0, 0, sz)) by (bit_vector);
                    vec![size_bits | mode_bits | dest_bits | opcode, immediate_value(n)]
                } else {
                    return Err(AssemblerError::UnsupportedStatement);
                }
            },
            Ast::Lea { dest, src } => {
                let d = match register_leaf(dest) {
                    Some(d) => d,
                    None => {
                        return Err(AssemblerError::UnsupportedStatement);
                    },
                };
                let n = match number_leaf(src) {
                    Some(n) => n,
                    None => {
                        return Err(AssemblerError::UnsupportedStatement);
                    },
                };
                let dest_bits = Assembler::encode_dest(dest);
                let (mode_bits, _) = Assembler::encode_source(src);
                let opcode = Assembler::generate_operation_opcode(TokenType::Lea);
                let ghost dd = token_ordinal(d);
                assert(dd < 32 ==> (2u32 << 30u32) | (1u32 << 8u32) | (dd << 14u32) | 2u32
                    == layout(2, 1, dd, 0, 0, 2)) by (bit_vector);
                vec![(2u32 << SIZE_SHIFT) | mode_bits | dest_bits | opcode, immediate_value(n)]
            },
            Ast::Nop { .. } => vec![0u32],
            Ast::LabelDefinition { repr } => {
                let name = repr.get_repr().to_owned();
                self.label_definitions.push((name, self.position));
                assert(self.labels() =~= old(self).labels().push((repr.repr@, old(self).offset() as usize)));
                Vec::new()
            },
            _ => {
                return Err(AssemblerError::UnsupportedStatement);
            },
        };
        proof {
            assert(words@ =~= statement_words(*ast)->Some_0);
        }
        self.position = self.position + 4 * words.len();
        Ok(words)
    }
}

/// Every instruction word that the assembler emits decodes to the
/// instruction it was assembled from: a Move with the given mode,
/// registers and size, or a Lea into the given register.
pub proof fn lemma_assembled_word_decodes(mode: u32, dest: u32, src: u32, size: u32)
    requires
        mode < 8,
        dest < 32,
        src < 32,
        size < 3,
    ensures
        decode_spec(layout(OPCODE_MOVE, mode, dest, src, 0, size)) == Opcode::Move(
            MoveOpcode {
                addr_mode: AddressingMode::from_encoding(mode),
                destination: Register::from_ordinal(dest),
                source: Register::from_ordinal(src),
                offset: 0,
                size: OpcodeSize::from_encoding(size),
            },
        ),
        decode_spec(layout(OPCODE_LEA, mode, dest, 0, 0, size)) == Opcode::Lea(
            LeaOpcode {
                addr_mode: AddressingMode::from_encoding(mode),
                destination: Register::from_ordinal(dest),
                offset: 0,
                size: OpcodeSize::from_encoding(size),
            },
        ),
{
    lemma_register_ordinal_bijection();
    let m = Opcode::Move(
        MoveOpcode {
            addr_mode: AddressingMode::from_encoding(mode),
            destination: Register::from_ordinal(dest),
            source: Register::from_ordinal(src),
            offset: 0,
            size: OpcodeSize::from_encoding(size),
        },
    );
    let l = Opcode::Lea(
        LeaOpcode {
            addr_mode: AddressingMode::from_encoding(mode),
            destination: Register::from_ordinal(dest),
            offset: 0,
            size: OpcodeSize::from_encoding(size),
        },
    );
    assert(AddressingMode::from_encoding(mode).encoding() == mode);
    assert(OpcodeSize::from_encoding(size).encoding() == size);
    assert(Register::from_ordinal(dest).ordinal() == dest);
    assert(Register::from_ordinal(src).ordinal() == src);
    lemma_encode_then_decode(m);
    lemma_encode_then_decode(l);
}

/// The types of the six tokens from call `k` of `next` on, scanning `src`
/// from its start on line 1.
pub open spec fn window_at(src: Seq<u8>, k: nat) -> Seq<TokenType> {
    seq![
        type_at(src, 0, 1, k),
        type_at(src, 0, 1, k + 1),
        type_at(src, 0, 1, k + 2),
        type_at(src, 0, 1, k + 3),
        type_at(src, 0, 1, k + 4),
        type_at(src, 0, 1, k + 5),
    ]
}

/// The words of the statement whose tokens have the types `t`, for a
/// statement that parses: what `statement_words` gives for its tree.
pub open spec fn window_words(t: Seq<TokenType>) -> Option<Seq<u32>> {
    match t[0] {
        TokenType::Identifier => Some(Seq::empty()),
        TokenType::Move => if is_register_token(t[5]) {
            Some(
                seq![
                    layout(
                        OPCODE_MOVE,
                        0,
                        token_ordinal(t[3]),
                        token_ordinal(t[5]),
                        0,
                        size_encoding(t[2]),
                    ),
                ],
            )
        } else {
            Some(
                seq![
                    layout(OPCODE_MOVE, 1, token_ordinal(t[3]), 0, 0, size_encoding(t[2])),
                    immediate_word(t[5]),
                ],
            )
        },
        TokenType::Lea => Some(
            seq![layout(OPCODE_LEA, 1, token_ordinal(t[3]), 0, 0, 2), immediate_word(t[5])],
        ),
        TokenType::Nop => Some(seq![0u32]),
        _ => None,
    }
}

/// The word stream of the statements of `src` from token `k` on: each
/// statement's words in order, up to the end of the source; `None` at the
/// first statement that does not parse or encode.
#[verifier::opaque]
pub open spec fn program_words_from(src: Seq<u8>, k: nat) -> Option<Seq<u32>>
    decreases stream_measure(src, k),
    via program_words_from_decreases
{
    let t = window_at(src, k);
    if t[0] is EndOfFile {
        Some(Seq::empty())
    } else if parse_failure(t) is Some {
        None
    } else {
        match window_words(t) {
            Some(ws) => match program_words_from(src, k + statement_span(t)) {
                Some(rest) => Some(ws + rest),
                None => None,
            },
            None => None,
        }
    }
}

#[via_fn]
proof fn program_words_from_decreases(src: Seq<u8>, k: nat) {
    let t = window_at(src, k);
    if !(t[0] is EndOfFile) && parse_failure(t) is None {
        lemma_measure_steps(src, k, statement_span(t));
    }
}

/// How the word stream from token `k` on unfolds by one statement.
proof fn lemma_program_words_unfold(src: Seq<u8>, k: nat)
    ensures
        ({
            let t = window_at(src, k);
            program_words_from(src, k) == if t[0] is EndOfFile {
                Some(Seq::empty())
            } else if parse_failure(t) is Some {
                None
            } else {
                match window_words(t) {
                    Some(ws) => prepend(ws, program_words_from(src, k + statement_span(t))),
                    None => None,
                }
            }
        }),
{
    reveal(program_words_from);
}

/// Appends `words` to `out`.
fn append_words(out: &mut Vec<u32>, words: &Vec<u32>)
    ensures
        final(out)@ == old(out)@ + words@,
{
    let mut i: usize = 0;
    while i < words.len()
        invariant
            0 <= i <= words@.len(),
            out@ == old(out)@ + words@.subrange(0, i as int),
        decreases words@.len() - i,
    {
        out.push(words[i]);
        i = i + 1;
        assert(out@ =~= old(out)@ + words@.subrange(0, i as int));
    }
    assert(words@.subrange(0, words@.len() as int) =~= words@);
}

/// The word stream that assembling the source bytes `src` produces.
pub open spec fn program_words(src: Seq<u8>) -> Option<Seq<u32>> {
    program_words_from(src, 0)
}

/// `prefix` followed by the words of `rest`, if there are any.
pub open spec fn prepend(prefix: Seq<u32>, rest: Option<Seq<u32>>) -> Option<Seq<u32>> {
    match rest {
        Some(r) => Some(prefix + r),
        None => None,
    }
}

/// A statement that parses to `ast` assembles to the words its token types
/// give.
proof fn lemma_parsed_statement_words(ast: Ast, t: Seq<TokenType>)
    requires
        t.len() == 6,
        !(t[0] is EndOfFile),
        parse_failure(t) is None,
        ast_shape(ast, t),
    ensures
        statement_words(ast) == window_words(t),
{
    assert(t.subrange(1, 6)[1] == t[2] && t.subrange(1, 6)[2] == t[3] && t.subrange(1, 6)[3] == t[4]
        && t.subrange(1, 6)[4] == t[5] && t.subrange(1, 6)[0] == t[1]);
    if t[0] is Lea {
        assert(is_address_register_token(t[3]) ==> is_register_token(t[3]));
    }
}


/// Why a source text could not be assembled.
#[derive(Debug)]
pub enum AssembleError {
    /// A statement did not parse.
    Parse(ParserError),
    /// A statement parsed but could not be encoded.
    Encode(AssemblerError),
}

impl Assembler {
    /// Assembles a whole source text, statement by statement, into the word
    /// stream, recording label definitions on the way. It stops at the end
    /// of the source or at the first statement that does not parse or
    /// encode.
    #[verifier::rlimit(60)]
    pub fn assemble(&mut self, source: &str) -> (r: Result<Vec<u32>, AssembleError>)
        requires
            source.spec_bytes().len() < usize::MAX,
        ensures
            r matches Ok(words) ==> program_words(source.spec_bytes()) == Some(words@)
                && final(self).offset() == old(self).offset() + 4 * words@.len(),
            program_words(source.spec_bytes()) matches Some(ws) && old(self).offset() + 4
                * ws.len() <= usize::MAX - 8 ==> r is Ok,
            program_words(source.spec_bytes()) is None ==> r is Err,
            old(self).labels().len() <= final(self).labels().len(),
            final(self).labels().subrange(0, old(self).labels().len() as int) == old(self).labels(),
    {
        let ghost src = source.spec_bytes();
        let mut parser = Parser::new(source);
        let mut assembled: Vec<u32> = Vec::new();
        let ghost mut k: nat = 0;
        loop
            invariant
                src == source.spec_bytes(),
                parser.wf(),
                forall|j: nat| #![trigger parser.ahead(j)] parser.ahead(j) == type_at(src, 0, 1, k + j),
                program_words(src) == prepend(assembled@, program_words_from(src, k)),
                self.offset() == old(self).offset() + 4 * assembled@.len(),
                old(self).labels().len() <= self.labels().len(),
                self.labels().subrange(0, old(self).labels().len() as int) == old(self).labels(),
            decreases parser.remaining(),
        {
            let ghost p0 = parser;
            let ghost t = window_at(src, k);
            proof {
                assert(p0.window() =~= t) by {
                    assert(p0.ahead(0) == type_at(src, 0, 1, k + 0));
                    assert(p0.ahead(1) == type_at(src, 0, 1, k + 1));
                    assert(p0.ahead(2) == type_at(src, 0, 1, k + 2));
                    assert(p0.ahead(3) == type_at(src, 0, 1, k + 3));
                    assert(p0.ahead(4) == type_at(src, 0, 1, k + 4));
                    assert(p0.ahead(5) == type_at(src, 0, 1, k + 5));
                }
            }
            let ast = match parser.parse() {
                Ok(Ast::ProgramEnd) => {
                    proof {
                        lemma_program_words_unfold(src, k);
                    }
                    assert(assembled@ + Seq::<u32>::empty() =~= assembled@);
                    return Ok(assembled);
                },
                Ok(ast) => ast,
                Err(e) => {
                    proof {
                        lemma_program_words_unfold(src, k);
                    }
                    return Err(AssembleError::Parse(e));
                },
            };
            proof {
                lemma_parsed_statement_words(ast, t);
                lemma_program_words_unfold(src, k);
            }
            match self.encode_statement(&ast) {
                Ok(words) => {
                    let ghost start = assembled@;
                    append_words(&mut assembled, &words);
                    proof {
                        let n = statement_span(t);
                        assert forall|j: nat| #![trigger parser.ahead(j)]
                            parser.ahead(j) == type_at(src, 0, 1, (k + n) + j) by {
                            lemma_shifted_at(parser, p0, n, j);
                            assert(k + (j + n) == (k + n) + j);
                        }
                        match program_words_from(src, k + n) {
                            Some(rest) => {
                                assert(start + (words@ + rest) =~= (start + words@) + rest);
                            },
                            None => {},
                        }
                        k = k + n;
                    }
                },
                Err(e) => {
                    return Err(AssembleError::Encode(e));
                },
            }
            proof {
                assert(self.labels().subrange(0, old(self).labels().len() as int) =~= old(self).labels());
            }
        }
    }
}

} // verus!
