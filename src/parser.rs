use vstd::prelude::*;
use vstd::string::StringSliceAdditionalSpecFns;
use crate::lexer::{
    is_address_register_token, is_data_register_token, is_number_token, is_register_token,
    lemma_scan_progress, lemma_state_after_shift, line_at, start_at, state_after, type_at, Token, TokenType, Tokenizer,
};

verus! {

/// Register operands an instruction accepts in one position.
#[derive(Debug, PartialEq, Eq, Clone, Copy, Structural)]
pub enum RegisterModes {
    DataRegisters,
    AddressRegisters,
}

impl RegisterModes {
    /// What this mode admits, in words.
    pub fn description(&self) -> (r: &'static str)
        ensures
            r@ == match self {
                RegisterModes::DataRegisters => "Data Register Target: D0..D15"@,
                RegisterModes::AddressRegisters => "Address Register Target: A0..A15"@,
            },
    {
        match self {
            RegisterModes::DataRegisters => "Data Register Target: D0..D15",
            RegisterModes::AddressRegisters => "Address Register Target: A0..A15",
        }
    }
}

/// Memory operands an instruction accepts in one position.
#[derive(Debug, PartialEq, Eq, Clone, Copy, Structural)]
pub enum MemoryModes {
    ImmediateValue,
    Direct,
    DirectInc,
    DirectDec,
}

/// Why a line of assembly could not be parsed: the line and offset of the
/// offending token, then what was expected and what was found.
#[derive(Debug)]
pub enum ParserError {
    UnexpectedSymbol(usize, usize, String, String),
    InvalidOpcodeSize(usize, usize, String),
    InvalidOperand(usize, usize, String),
    IllegalSize(usize, usize, String, String),
    MissingSeperator(usize, usize, String, String),
}

/// The variants of `ParserError`, without their data.
#[derive(Debug, PartialEq, Eq, Clone, Copy, Structural)]
pub enum ParserErrorKind {
    UnexpectedSymbol,
    InvalidOpcodeSize,
    InvalidOperand,
    IllegalSize,
    MissingSeperator,
}

impl ParserError {
    /// Which kind of error this is.
    pub open spec fn kind(&self) -> ParserErrorKind {
        match self {
            ParserError::UnexpectedSymbol(..) => ParserErrorKind::UnexpectedSymbol,
            ParserError::InvalidOpcodeSize(..) => ParserErrorKind::InvalidOpcodeSize,
            ParserError::InvalidOperand(..) => ParserErrorKind::InvalidOperand,
            ParserError::IllegalSize(..) => ParserErrorKind::IllegalSize,
            ParserError::MissingSeperator(..) => ParserErrorKind::MissingSeperator,
        }
    }

    /// The line of the offending token.
    pub open spec fn line(&self) -> usize {
        match self {
            ParserError::UnexpectedSymbol(l, ..) => *l,
            ParserError::InvalidOpcodeSize(l, ..) => *l,
            ParserError::InvalidOperand(l, ..) => *l,
            ParserError::IllegalSize(l, ..) => *l,
            ParserError::MissingSeperator(l, ..) => *l,
        }
    }

    /// The byte offset of the offending token.
    pub open spec fn position(&self) -> usize {
        match self {
            ParserError::UnexpectedSymbol(_, p, ..) => *p,
            ParserError::InvalidOpcodeSize(_, p, ..) => *p,
            ParserError::InvalidOperand(_, p, ..) => *p,
            ParserError::IllegalSize(_, p, ..) => *p,
            ParserError::MissingSeperator(_, p, ..) => *p,
        }
    }
}

/// A parsed statement or one of its parts.
#[derive(Debug, PartialEq, Eq)]
pub enum Ast<'a> {
    Nop { repr: Token<'a> },
    LabelDefinition { repr: Token<'a> },
    Label { repr: Token<'a> },
    Move { size: Box<Ast<'a>>, dest: Box<Ast<'a>>, src: Box<Ast<'a>> },
    Lea { dest: Box<Ast<'a>>, src: Box<Ast<'a>> },
    Size { repr: Token<'a> },
    MemoryTarget { repr: Token<'a>, operation: Token<'a> },
    Plus { repr: Token<'a> },
    Minus { repr: Token<'a> },
    Register { repr: Token<'a> },
    Number { repr: Token<'a> },
    ProgramEnd,
}

/// A size suffix: `b`, `w` or `dw`.
pub open spec fn is_size_token(t: TokenType) -> bool {
    t is Byte || t is Word || t is Dword
}

/// A failure found `1` token later than `f` says.
pub open spec fn after_mnemonic(f: Option<(ParserErrorKind, int)>) -> Option<(ParserErrorKind, int)> {
    match f {
        Some((kind, k)) => Some((kind, k + 1)),
        None => None,
    }
}

/// Where parsing a statement that starts with the token types `t` fails:
/// the kind of error and the index of the offending token.
pub open spec fn parse_failure(t: Seq<TokenType>) -> Option<(ParserErrorKind, int)> {
    match t[0] {
        TokenType::Identifier => if t[1] is Colon {
            None
        } else {
            Some((ParserErrorKind::UnexpectedSymbol, 1))
        },
        TokenType::Move => after_mnemonic(move_failure(t[1], t[2], t[3], t[4], t[5])),
        TokenType::Lea => after_mnemonic(lea_failure(t[1], t[2], t[3], t[4], t[5])),
        TokenType::Nop | TokenType::EndOfFile => None,
        _ => Some((ParserErrorKind::InvalidOperand, 0)),
    }
}

/// The number of tokens a statement starting with the token types `t`
/// spans: a label definition two, a Move or Lea six, a Nop one, and the end
/// of the source none.
pub open spec fn statement_span(t: Seq<TokenType>) -> nat {
    match t[0] {
        TokenType::Identifier => 2,
        TokenType::Move | TokenType::Lea => 6,
        TokenType::Nop => 1,
        _ => 0,
    }
}

/// `ast` is the Move whose operands, from the dot after the mnemonic on,
/// have the token types `t`.
pub open spec fn move_shape(ast: Ast, t1: TokenType, t2: TokenType, t4: TokenType) -> bool {
    ast matches Ast::Move { size, dest, src } && {
        &&& *size matches Ast::Size { repr } && repr.token_type == t1
        &&& *dest matches Ast::Register { repr } && repr.token_type == t2
        &&& if is_register_token(t4) {
            *src matches Ast::Register { repr } && repr.token_type == t4
        } else {
            *src matches Ast::Number { repr } && repr.token_type == t4
        }
    }
}

/// `ast` is the Lea whose operands, from the dot after the mnemonic on,
/// have the token types `t`.
pub open spec fn lea_shape(ast: Ast, t1: TokenType, t2: TokenType, t4: TokenType) -> bool {
    ast matches Ast::Lea { dest, src } && {
        &&& *dest matches Ast::Register { repr } && repr.token_type == t2
        &&& *src matches Ast::Number { repr } && repr.token_type == t4
    }
}

/// `ast` is the tree that a statement starting with the token types `t`
/// parses to: its variant follows the first token, and each leaf holds the
/// token of its place in the statement.
pub open spec fn ast_shape(ast: Ast, t: Seq<TokenType>) -> bool {
    match t[0] {
        TokenType::Identifier => ast matches Ast::LabelDefinition { repr } && repr.token_type
            == t[0],
        TokenType::Move => move_shape(ast, t[2], t[3], t[5]),
        TokenType::Lea => lea_shape(ast, t[2], t[3], t[5]),
        TokenType::Nop => ast matches Ast::Nop { repr } && repr.token_type == t[1],
        _ => ast is ProgramEnd,
    }
}

/// Parses assembly source one statement at a time.
pub struct Parser<'a> {
    tokenizer: Tokenizer<'a>,
    prev_token: Option<Token<'a>>,
    curr_token: Token<'a>,
}

impl<'a> Parser<'a> {
    /// The tokenizer is in a valid state.
    pub closed spec fn wf(&self) -> bool {
        self.tokenizer.wf()
    }

    /// Type of the `k`-th token from the current one (0 is the current one).
    pub closed spec fn ahead(&self, k: nat) -> TokenType {
        if k == 0 {
            self.curr_token.token_type
        } else {
            type_at(
                self.tokenizer.source_bytes(),
                self.tokenizer.pos(),
                self.tokenizer.current_line(),
                (k - 1) as nat,
            )
        }
    }

    /// Line of the `k`-th token from the current one.
    pub closed spec fn line_ahead(&self, k: nat) -> int {
        if k == 0 {
            self.curr_token.line as int
        } else {
            line_at(
                self.tokenizer.source_bytes(),
                self.tokenizer.pos(),
                self.tokenizer.current_line(),
                (k - 1) as nat,
            )
        }
    }

    /// Start offset of the `k`-th token from the current one.
    pub closed spec fn start_ahead(&self, k: nat) -> int {
        if k == 0 {
            self.curr_token.start as int
        } else {
            start_at(
                self.tokenizer.source_bytes(),
                self.tokenizer.pos(),
                self.tokenizer.current_line(),
                (k - 1) as nat,
            )
        }
    }

    /// A measure of the input left: twice the unscanned bytes, plus one
    /// while the current token is not the end of the source.
    pub closed spec fn remaining(&self) -> nat {
        ((self.tokenizer.source_bytes().len() - self.tokenizer.pos()) * 2 + if self.curr_token.token_type is EndOfFile {
            0int
        } else {
            1int
        }) as nat
    }

    /// The current token.
    pub closed spec fn current(&self) -> Token<'a> {
        self.curr_token
    }

    /// The types of the current token and the five after it: all that a
    /// statement's grammar looks at.
    pub open spec fn window(&self) -> Seq<TokenType> {
        seq![
            self.ahead(0),
            self.ahead(1),
            self.ahead(2),
            self.ahead(3),
            self.ahead(4),
            self.ahead(5),
        ]
    }

    /// `self` sees the tokens that `before` saw `n` places later.
    #[verifier::opaque]
    pub open spec fn shifted(&self, before: &Parser<'a>, n: nat) -> bool {
        &&& self.wf()
        &&& n > 0 ==> self.remaining() < before.remaining()
        &&& forall|k: nat|
            #![trigger self.ahead(k)]
            self.ahead(k) == before.ahead(k + n) && self.line_ahead(k) == before.line_ahead(k + n)
                && self.start_ahead(k) == before.start_ahead(k + n)
    }

    /// A parser whose current token is the first token of `source`: the
    /// tokens it sees ahead are those that scanning `source` from its start
    /// on line 1 produces.
    pub fn new(source: &'a str) -> (r: Self)
        requires
            source.spec_bytes().len() < usize::MAX,
        ensures
            r.wf(),
            forall|k: nat|
                #![trigger r.ahead(k)]
                r.ahead(k) == type_at(source.spec_bytes(), 0, 1, k) && r.line_ahead(k) == line_at(
                    source.spec_bytes(),
                    0,
                    1,
                    k,
                ) && r.start_ahead(k) == start_at(source.spec_bytes(), 0, 1, k),
    {
        let mut tokenizer = Tokenizer::new(source);
        let ghost src = source.spec_bytes();
        assert(tokenizer.source_bytes() == src && tokenizer.pos() == 0 && tokenizer.current_line() == 1);
        let curr_token = tokenizer.next();
        assert(state_after(src, 0, 1, 0) == (0int, 1int));
        assert(state_after(src, 0, 1, 1) == (tokenizer.pos(), tokenizer.current_line()));
        let r = Parser { tokenizer, prev_token: None, curr_token };
        proof {
            assert forall|k: nat| #![trigger r.ahead(k)]
                r.ahead(k) == type_at(src, 0, 1, k) && r.line_ahead(k) == line_at(src, 0, 1, k)
                    && r.start_ahead(k) == start_at(src, 0, 1, k) by {
                if k > 0 {
                    lemma_state_after_shift(src, 0, 1, (k - 1) as nat);
                }
            }
        }
        r
    }

    fn advance(&mut self)
        requires
            old(self).wf(),
            !(old(self).ahead(0) is EndOfFile),
        ensures
            final(self).shifted(old(self), 1),
            final(self).current().token_type == old(self).ahead(1),
    {
        let ghost src = self.tokenizer.source_bytes();
        let ghost pos = self.tokenizer.pos();
        let ghost line = self.tokenizer.current_line();
        self.prev_token = Some(self.curr_token);
        self.curr_token = self.tokenizer.next();
        proof {
            reveal(Parser::shifted);
            old(self).tokenizer.lemma_wf_bounds();
            lemma_scan_progress(src, pos, line);
            assert(state_after(src, pos, line, 1) == (self.tokenizer.pos(), self.tokenizer.current_line()));
            assert forall|k: nat| #![trigger self.ahead(k)]
                self.ahead(k) == old(self).ahead(k + 1) && self.line_ahead(k) == old(self).line_ahead(k + 1)
                    && self.start_ahead(k) == old(self).start_ahead(k + 1) by {
                if k > 0 {
                    lemma_state_after_shift(src, pos, line, (k - 1) as nat);
                }
            }
        }
    }

    fn match_token(&mut self, to_match: TokenType) -> (r: bool)
        requires
            old(self).wf(),
            !(to_match is EndOfFile),
        ensures
            r == (old(self).ahead(0) == to_match),
            r ==> final(self).shifted(old(self), 1),
            !r ==> *final(self) == *old(self),
    {
        if self.curr_token.token_type == to_match {
            self.advance();
            return true;
        }
        false
    }
}

/// Whether register mode `m` admits a token of type `t`.
pub open spec fn register_mode_accepts(m: RegisterModes, t: TokenType) -> bool {
    match m {
        RegisterModes::DataRegisters => is_data_register_token(t),
        RegisterModes::AddressRegisters => is_address_register_token(t),
    }
}

/// Whether memory mode `m` admits a token of type `t`. Only immediate
/// values are part of the grammar so far; the register-indirect forms
/// admit nothing.
pub open spec fn memory_mode_accepts(m: MemoryModes, t: TokenType) -> bool {
    match m {
        MemoryModes::ImmediateValue => is_number_token(t),
        _ => false,
    }
}

/// Where the operands of a Move fail to parse, given the token types from
/// the dot after the mnemonic on.
pub open spec fn move_failure(t0: TokenType, t1: TokenType, t2: TokenType, t3: TokenType, t4: TokenType) -> Option<(ParserErrorKind, int)> {
    if !(t0 is Dot) {
        Some((ParserErrorKind::UnexpectedSymbol, 0))
    } else if !is_size_token(t1) {
        Some((ParserErrorKind::InvalidOpcodeSize, 1))
    } else if !is_register_token(t2) {
        Some((ParserErrorKind::InvalidOperand, 2))
    } else if !(t3 is Comma) {
        Some((ParserErrorKind::MissingSeperator, 3))
    } else if !(is_register_token(t4) || is_number_token(t4)) {
        Some((ParserErrorKind::InvalidOperand, 4))
    } else {
        None
    }
}

/// Where the operands of a Lea fail to parse, given the token types from
/// the dot after the mnemonic on.
pub open spec fn lea_failure(t0: TokenType, t1: TokenType, t2: TokenType, t3: TokenType, t4: TokenType) -> Option<(ParserErrorKind, int)> {
    if !(t0 is Dot) {
        Some((ParserErrorKind::UnexpectedSymbol, 0))
    } else if !(t1 is Dword) {
        Some((ParserErrorKind::IllegalSize, 1))
    } else if !is_address_register_token(t2) {
        Some((ParserErrorKind::InvalidOperand, 2))
    } else if !(t3 is Comma) {
        Some((ParserErrorKind::MissingSeperator, 3))
    } else if !is_number_token(t4) {
        Some((ParserErrorKind::InvalidOperand, 4))
    } else {
        None
    }
}

/// `e` is an error of kind `kind` at the token `k` places ahead of `p`.
pub open spec fn error_at(e: ParserError, kind: ParserErrorKind, p: Parser, k: nat) -> bool {
    &&& e.kind() == kind
    &&& e.line() == p.line_ahead(k)
    &&& e.position() == p.start_ahead(k)
}

impl<'a> Parser<'a> {
    fn invalid_operand(&self) -> (e: ParserError)
        ensures
            error_at(e, ParserErrorKind::InvalidOperand, *self, 0),
    {
        ParserError::InvalidOperand(
            self.curr_token.get_line(),
            self.curr_token.get_position(),
            self.curr_token.get_repr().to_owned(),
        )
    }

    fn unexpected_symbol(&self, expected: &str) -> (e: ParserError)
        ensures
            error_at(e, ParserErrorKind::UnexpectedSymbol, *self, 0),
    {
        ParserError::UnexpectedSymbol(
            self.curr_token.get_line(),
            self.curr_token.get_position(),
            expected.to_owned(),
            self.curr_token.get_repr().to_owned(),
        )
    }

    fn missing_separator(&self) -> (e: ParserError)
        ensures
            error_at(e, ParserErrorKind::MissingSeperator, *self, 0),
    {
        ParserError::MissingSeperator(
            self.curr_token.get_line(),
            self.curr_token.get_position(),
            ",".to_owned(),
            self.curr_token.get_repr().to_owned(),
        )
    }

    fn match_number_type(&mut self, tt: TokenType) -> (r: Option<Ast<'a>>)
        requires
            old(self).wf(),
            tt == old(self).ahead(0),
        ensures
            r is Some == is_number_token(tt),
            r matches Some(ast) ==> ast == (Ast::Number { repr: old(self).current() })
                && final(self).shifted(old(self), 1),
            r is None ==> *final(self) == *old(self),
    {
        match tt {
            TokenType::ByteHexNumber(_) | TokenType::ByteDecimalNumber(_)
            | TokenType::ByteBinaryNumber(_) | TokenType::WordHexNumber(_)
            | TokenType::WordDecimalNumber(_) | TokenType::WordBinaryNumber(_)
            | TokenType::DwordHexNumber(_) | TokenType::DwordDecimalNumber(_)
            | TokenType::DwordBinaryNumber(_) => {
                let result = Some(Ast::Number { repr: self.curr_token });
                self.advance();
                result
            },
            _ => None,
        }
    }

    fn match_size(&mut self, tt: TokenType) -> (r: Option<Ast<'a>>)
        requires
            old(self).wf(),
            tt == old(self).ahead(0),
        ensures
            r is Some == is_size_token(tt),
            r matches Some(ast) ==> ast == (Ast::Size { repr: old(self).current() })
                && final(self).shifted(old(self), 1),
            r is None ==> *final(self) == *old(self),
    {
        match tt {
            TokenType::Byte | TokenType::Word | TokenType::Dword => {
                let result = Some(Ast::Size { repr: self.curr_token });
                self.advance();
                result
            },
            _ => None,
        }
    }

    fn match_address_register(&mut self, current_token: TokenType) -> (r: Option<Ast<'a>>)
        requires
            old(self).wf(),
            current_token == old(self).ahead(0),
        ensures
            r is Some == is_address_register_token(current_token),
            r matches Some(ast) ==> ast == (Ast::Register { repr: old(self).current() })
                && final(self).shifted(old(self), 1),
            r is None ==> *final(self) == *old(self),
    {
        match current_token {
            TokenType::A0
            | TokenType::A1
            | TokenType::A2
            | TokenType::A3
            | TokenType::A4
            | TokenType::A5
            | TokenType::A6
            | TokenType::A7
            | TokenType::A8
            | TokenType::A9
            | TokenType::A10
            | TokenType::A11
            | TokenType::A12
            | TokenType::A13
            | TokenType::A14
            | TokenType::A15 => {
                let result = Some(Ast::Register { repr: self.curr_token });
                self.advance();
                result
            },
            _ => None,
        }
    }

    fn match_data_register(&mut self, current_token: TokenType) -> (r: Option<Ast<'a>>)
        requires
            old(self).wf(),
            current_token == old(self).ahead(0),
        ensures
            r is Some == is_data_register_token(current_token),
            r matches Some(ast) ==> ast == (Ast::Register { repr: old(self).current() })
                && final(self).shifted(old(self), 1),
            r is None ==> *final(self) == *old(self),
    {
        match current_token {
            TokenType::D0
            | TokenType::D1
            | TokenType::D2
            | TokenType::D3
            | TokenType::D4
            | TokenType::D5
            | TokenType::D6
            | TokenType::D7
            | TokenType::D8
            | TokenType::D9
            | TokenType::D10
            | TokenType::D11
            | TokenType::D12
            | TokenType::D13
            | TokenType::D14
            | TokenType::D15 => {
                let result = Some(Ast::Register { repr: self.curr_token });
                self.advance();
                result
            },
            _ => None,
        }
    }

    fn match_all_registers(&mut self, current_token: TokenType) -> (r: Option<Ast<'a>>)
        requires
            old(self).wf(),
            current_token == old(self).ahead(0),
        ensures
            r is Some == is_register_token(current_token),
            r matches Some(ast) ==> ast == (Ast::Register { repr: old(self).current() })
                && final(self).shifted(old(self), 1),
            r is None ==> *final(self) == *old(self),
    {
        if let Some(ast) = self.match_data_register(current_token) {
            return Some(ast);
        }
        self.match_address_register(current_token)
    }

    fn parse_immediate_value(&mut self) -> (r: Option<Ast<'a>>)
        requires
            old(self).wf(),
        ensures
            r is Some == is_number_token(old(self).ahead(0)),
            r matches Some(ast) ==> ast == (Ast::Number { repr: old(self).current() })
                && final(self).shifted(old(self), 1),
            r is None ==> *final(self) == *old(self),
    {
        let tt = self.curr_token.token_type();
        self.match_number_type(tt)
    }

    fn parse_register_arg(&mut self, mode: &RegisterModes, current_token: TokenType) -> (r: Option<Ast<'a>>)
        requires
            old(self).wf(),
            current_token == old(self).ahead(0),
        ensures
            r is Some == register_mode_accepts(*mode, current_token),
            r matches Some(ast) ==> ast == (Ast::Register { repr: old(self).current() })
                && final(self).shifted(old(self), 1),
            r is None ==> *final(self) == *old(self),
    {
        match mode {
            RegisterModes::DataRegisters => self.match_data_register(current_token),
            RegisterModes::AddressRegisters => self.match_address_register(current_token),
        }
    }

    fn parse_memory_arg(&mut self, mode: &MemoryModes) -> (r: Option<Ast<'a>>)
        requires
            old(self).wf(),
        ensures
            r is Some == memory_mode_accepts(*mode, old(self).ahead(0)),
            r matches Some(ast) ==> ast == (Ast::Number { repr: old(self).current() })
                && final(self).shifted(old(self), 1),
            r is None ==> *final(self) == *old(self),
    {
        match mode {
            MemoryModes::ImmediateValue => self.parse_immediate_value(),
            _ => None,
        }
    }

    fn parse_arg(&mut self, register_types: &[RegisterModes], memory_types: &[MemoryModes]) -> (r: Result<Ast<'a>, ParserError>)
        requires
            old(self).wf(),
        ensures
            ({
                let t = old(self).ahead(0);
                let reg_ok = exists|i: int|
                    0 <= i < register_types@.len() && register_mode_accepts(
                        #[trigger] register_types@[i],
                        t,
                    );
                let mem_ok = exists|j: int|
                    0 <= j < memory_types@.len() && memory_mode_accepts(
                        #[trigger] memory_types@[j],
                        t,
                    );
                &&& r is Ok <==> (reg_ok || mem_ok)
                &&& r matches Ok(ast) ==> final(self).shifted(old(self), 1) && if reg_ok {
                    ast == (Ast::Register { repr: old(self).current() })
                } else {
                    ast == (Ast::Number { repr: old(self).current() })
                }
                &&& r matches Err(e) ==> *final(self) == *old(self) && error_at(
                    e,
                    ParserErrorKind::InvalidOperand,
                    *old(self),
                    0,
                )
            }),
    {
        let tt = self.curr_token.token_type();
        let mut i: usize = 0;
        while i < register_types.len()
            invariant
                0 <= i <= register_types@.len(),
                *self == *old(self),
                tt == old(self).ahead(0),
                self.wf(),
                forall|k: int| 0 <= k < i ==> !register_mode_accepts(#[trigger] register_types@[k], tt),
            decreases register_types@.len() - i,
        {
            if let Some(register_arg) = self.parse_register_arg(&register_types[i], tt) {
                return Ok(register_arg);
            }
            i = i + 1;
        }
        let mut j: usize = 0;
        while j < memory_types.len()
            invariant
                0 <= j <= memory_types@.len(),
                *self == *old(self),
                tt == old(self).ahead(0),
                self.wf(),
                forall|k: int| 0 <= k < register_types@.len() ==> !register_mode_accepts(#[trigger] register_types@[k], tt),
                forall|k: int| 0 <= k < j ==> !memory_mode_accepts(#[trigger] memory_types@[k], tt),
            decreases memory_types@.len() - j,
        {
            if let Some(memory_arg) = self.parse_memory_arg(&memory_types[j]) {
                return Ok(memory_arg);
            }
            j = j + 1;
        }
        Err(self.invalid_operand())
    }
}

proof fn lemma_register_modes_all(modes: Seq<RegisterModes>, t: TokenType)
    requires
        modes == seq![RegisterModes::AddressRegisters, RegisterModes::DataRegisters],
    ensures
        (exists|i: int| 0 <= i < modes.len() && register_mode_accepts(#[trigger] modes[i], t))
            == is_register_token(t),
{
    if is_register_token(t) {
        if is_data_register_token(t) {
            assert(register_mode_accepts(modes[1], t));
        } else {
            assert(register_mode_accepts(modes[0], t));
        }
    }
}

proof fn lemma_memory_modes_immediate(modes: Seq<MemoryModes>, t: TokenType)
    requires
        modes == seq![
            MemoryModes::Direct,
            MemoryModes::DirectDec,
            MemoryModes::DirectInc,
            MemoryModes::ImmediateValue,
        ],
    ensures
        (exists|i: int| 0 <= i < modes.len() && memory_mode_accepts(#[trigger] modes[i], t))
            == is_number_token(t),
{
    if is_number_token(t) {
        assert(memory_mode_accepts(modes[3], t));
    }
}

/// What a shift by `n` says of the token `k` places ahead.
pub proof fn lemma_shifted_at<'a>(after: Parser<'a>, before: Parser<'a>, n: nat, k: nat)
    requires
        after.shifted(&before, n),
    ensures
        after.wf(),
        n > 0 ==> after.remaining() < before.remaining(),
        after.ahead(k) == before.ahead(k + n),
        after.line_ahead(k) == before.line_ahead(k + n),
        after.start_ahead(k) == before.start_ahead(k + n),
{
    reveal(Parser::shifted);
    assert(after.ahead(k) == before.ahead(k + n));
}

/// A parser is shifted by nothing from itself.
pub proof fn lemma_shifted_none<'a>(p: Parser<'a>)
    requires
        p.wf(),
    ensures
        p.shifted(&p, 0),
{
    reveal(Parser::shifted);
}

/// Two shifts make one.
pub proof fn lemma_shifted_trans<'a>(c: Parser<'a>, b: Parser<'a>, a: Parser<'a>, n: nat, m: nat)
    requires
        c.shifted(&b, n),
        b.shifted(&a, m),
        n > 0,
        m > 0,
    ensures
        c.shifted(&a, n + m),
{
    reveal(Parser::shifted);
    assert(c.remaining() < b.remaining() && b.remaining() < a.remaining());
    assert forall|k: nat| #![trigger c.ahead(k)]
        c.ahead(k) == a.ahead(k + (n + m)) && c.line_ahead(k) == a.line_ahead(k + (n + m))
            && c.start_ahead(k) == a.start_ahead(k + (n + m)) by {
        assert(c.ahead(k) == b.ahead(k + n));
        assert(b.ahead(k + n) == a.ahead(k + n + m));
    }
}

impl<'a> Parser<'a> {
    fn invalid_size(&self) -> (e: ParserError)
        ensures
            error_at(e, ParserErrorKind::InvalidOpcodeSize, *self, 0),
    {
        ParserError::InvalidOpcodeSize(
            self.curr_token.get_line(),
            self.curr_token.get_position(),
            self.curr_token.get_repr().to_owned(),
        )
    }

    fn illegal_size(&self) -> (e: ParserError)
        ensures
            error_at(e, ParserErrorKind::IllegalSize, *self, 0),
    {
        let repr = self.curr_token.get_repr();
        ParserError::IllegalSize(
            self.curr_token.get_line(),
            self.curr_token.get_position(),
            repr.to_owned(),
            repr.to_owned(),
        )
    }

    fn parse_move(&mut self) -> (r: Result<Ast<'a>, ParserError>)
        requires
            old(self).wf(),
        ensures
            final(self).wf(),
            r is Ok ==> final(self).shifted(old(self), 5),
            match move_failure(old(self).ahead(0), old(self).ahead(1), old(self).ahead(2), old(self).ahead(3), old(self).ahead(4)) {
                Some((kind, k)) => r matches Err(e) && error_at(e, kind, *old(self), k as nat),
                None => r matches Ok(ast) && move_shape(ast, old(self).ahead(1), old(self).ahead(2), old(self).ahead(4)),
            },
    {
        let ghost p0 = *self;
        if !self.match_token(TokenType::Dot) {
            return Err(self.unexpected_symbol("."));
        }
        let ghost p1 = *self;
        proof {
            lemma_shifted_at(p1, p0, 1, 0);
        }
        let tt = self.curr_token.token_type();
        let size_ast = match self.match_size(tt) {
            Some(ast) => ast,
            None => {
                proof {
                    lemma_shifted_at(p1, p0, 1, 0);
                }
                return Err(self.invalid_size());
            },
        };
        let ghost p2 = *self;
        proof {
            lemma_shifted_trans(p2, p1, p0, 1, 1);
            lemma_shifted_at(p2, p0, 2, 0);
        }
        let dest_reg_modes = [RegisterModes::AddressRegisters, RegisterModes::DataRegisters];
        let no_memory_modes: [MemoryModes; 0] = [];
        proof {
            lemma_register_modes_all(dest_reg_modes@, p2.ahead(0));
        }
        let dest_register = match self.parse_arg(dest_reg_modes.as_slice(), no_memory_modes.as_slice()) {
            Ok(ast) => ast,
            Err(e) => {
                return Err(e);
            },
        };
        let ghost p3 = *self;
        proof {
            lemma_shifted_trans(p3, p2, p0, 1, 2);
            lemma_shifted_at(p3, p0, 3, 0);
        }
        if !self.match_token(TokenType::Comma) {
            return Err(self.missing_separator());
        }
        let ghost p4 = *self;
        proof {
            lemma_shifted_trans(p4, p3, p0, 1, 3);
            lemma_shifted_at(p4, p0, 4, 0);
        }
        let src_reg_modes = [RegisterModes::AddressRegisters, RegisterModes::DataRegisters];
        let src_mem_modes = [
            MemoryModes::Direct,
            MemoryModes::DirectDec,
            MemoryModes::DirectInc,
            MemoryModes::ImmediateValue,
        ];
        proof {
            lemma_register_modes_all(src_reg_modes@, p4.ahead(0));
            lemma_memory_modes_immediate(src_mem_modes@, p4.ahead(0));
        }
        let src_register = match self.parse_arg(src_reg_modes.as_slice(), src_mem_modes.as_slice()) {
            Ok(ast) => ast,
            Err(e) => {
                return Err(e);
            },
        };
        proof {
            lemma_shifted_at(*self, p4, 1, 0);
            lemma_shifted_trans(*self, p4, p0, 1, 4);
        }
        Ok(Ast::Move { size: Box::new(size_ast), dest: Box::new(dest_register), src: Box::new(src_register) })
    }
}

impl<'a> Parser<'a> {
    fn parse_lea(&mut self) -> (r: Result<Ast<'a>, ParserError>)
        requires
            old(self).wf(),
        ensures
            final(self).wf(),
            r is Ok ==> final(self).shifted(old(self), 5),
            match lea_failure(old(self).ahead(0), old(self).ahead(1), old(self).ahead(2), old(self).ahead(3), old(self).ahead(4)) {
                Some((kind, k)) => r matches Err(e) && error_at(e, kind, *old(self), k as nat),
                None => r matches Ok(ast) && lea_shape(ast, old(self).ahead(1), old(self).ahead(2), old(self).ahead(4)),
            },
    {
        let ghost p0 = *self;
        if !self.match_token(TokenType::Dot) {
            return Err(self.unexpected_symbol("."));
        }
        let ghost p1 = *self;
        proof {
            lemma_shifted_at(p1, p0, 1, 0);
        }
        if !self.match_token(TokenType::Dword) {
            return Err(self.illegal_size());
        }
        let ghost p2 = *self;
        proof {
            lemma_shifted_trans(p2, p1, p0, 1, 1);
            lemma_shifted_at(p2, p0, 2, 0);
        }
        let dest_reg_modes = [RegisterModes::AddressRegisters];
        let no_memory_modes: [MemoryModes; 0] = [];
        proof {
            let t = p2.ahead(0);
            if is_address_register_token(t) {
                assert(register_mode_accepts(dest_reg_modes@[0], t));
            }
        }
        let dest_register = match self.parse_arg(dest_reg_modes.as_slice(), no_memory_modes.as_slice()) {
            Ok(ast) => ast,
            Err(e) => {
                return Err(e);
            },
        };
        let ghost p3 = *self;
        proof {
            lemma_shifted_trans(p3, p2, p0, 1, 2);
            lemma_shifted_at(p3, p0, 3, 0);
        }
        if !self.match_token(TokenType::Comma) {
            return Err(self.missing_separator());
        }
        let ghost p4 = *self;
        proof {
            lemma_shifted_trans(p4, p3, p0, 1, 3);
            lemma_shifted_at(p4, p0, 4, 0);
        }
        let no_register_modes: [RegisterModes; 0] = [];
        let src_mem_modes = [MemoryModes::ImmediateValue];
        proof {
            let t = p4.ahead(0);
            if is_number_token(t) {
                assert(memory_mode_accepts(src_mem_modes@[0], t));
            }
        }
        let src_register = match self.parse_arg(no_register_modes.as_slice(), src_mem_modes.as_slice()) {
            Ok(ast) => ast,
            Err(e) => {
                return Err(e);
            },
        };
        proof {
            lemma_shifted_at(*self, p4, 1, 0);
            lemma_shifted_trans(*self, p4, p0, 1, 4);
        }
        Ok(Ast::Lea { dest: Box::new(dest_register), src: Box::new(src_register) })
    }

    fn parse_label_definition(&mut self) -> (r: Result<Ast<'a>, ParserError>)
        requires
            old(self).wf(),
            old(self).ahead(0) is Identifier,
        ensures
            final(self).wf(),
            r is Ok ==> final(self).shifted(old(self), 2),
            old(self).ahead(1) is Colon ==> (r matches Ok(ast) && ast == (Ast::LabelDefinition {
                repr: old(self).current(),
            })),
            !(old(self).ahead(1) is Colon) ==> (r matches Err(e) && error_at(
                e,
                ParserErrorKind::UnexpectedSymbol,
                *old(self),
                1,
            )),
    {
        let ghost p0 = *self;
        let label = self.curr_token;
        self.advance();
        let ghost p1 = *self;
        proof {
            lemma_shifted_at(p1, p0, 1, 0);
        }
        if !self.match_token(TokenType::Colon) {
            return Err(self.unexpected_symbol(":"));
        }
        proof {
            lemma_shifted_at(*self, p1, 1, 0);
            lemma_shifted_trans(*self, p1, p0, 1, 1);
        }
        Ok(Ast::LabelDefinition { repr: label })
    }

    fn parse_move_statement(&mut self) -> (r: Result<Ast<'a>, ParserError>)
        requires
            old(self).wf(),
            old(self).ahead(0) is Move,
        ensures
            final(self).wf(),
            r is Ok ==> final(self).shifted(old(self), 6),
            match after_mnemonic(move_failure(old(self).ahead(1), old(self).ahead(2), old(self).ahead(3), old(self).ahead(4), old(self).ahead(5))) {
                Some((kind, k)) => r matches Err(e) && error_at(e, kind, *old(self), k as nat),
                None => r matches Ok(ast) && move_shape(ast, old(self).ahead(2), old(self).ahead(3), old(self).ahead(5)),
            },
    {
        let ghost p0 = *self;
        self.advance();
        let ghost p1 = *self;
        proof {
            lemma_shifted_at(p1, p0, 1, 0);
            lemma_shifted_at(p1, p0, 1, 1);
            lemma_shifted_at(p1, p0, 1, 2);
            lemma_shifted_at(p1, p0, 1, 3);
            lemma_shifted_at(p1, p0, 1, 4);
        }
        let r = self.parse_move();
        proof {
            match move_failure(p1.ahead(0), p1.ahead(1), p1.ahead(2), p1.ahead(3), p1.ahead(4)) {
                Some((kind, k)) => {
                    lemma_shifted_at(p1, p0, 1, k as nat);
                },
                None => {},
            }
        }
        proof {
            if r is Ok {
                lemma_shifted_trans(*self, p1, p0, 5, 1);
            }
        }
        r
    }

    fn parse_lea_statement(&mut self) -> (r: Result<Ast<'a>, ParserError>)
        requires
            old(self).wf(),
            old(self).ahead(0) is Lea,
        ensures
            final(self).wf(),
            r is Ok ==> final(self).shifted(old(self), 6),
            match after_mnemonic(lea_failure(old(self).ahead(1), old(self).ahead(2), old(self).ahead(3), old(self).ahead(4), old(self).ahead(5))) {
                Some((kind, k)) => r matches Err(e) && error_at(e, kind, *old(self), k as nat),
                None => r matches Ok(ast) && lea_shape(ast, old(self).ahead(2), old(self).ahead(3), old(self).ahead(5)),
            },
    {
        let ghost p0 = *self;
        self.advance();
        let ghost p1 = *self;
        proof {
            lemma_shifted_at(p1, p0, 1, 0);
            lemma_shifted_at(p1, p0, 1, 1);
            lemma_shifted_at(p1, p0, 1, 2);
            lemma_shifted_at(p1, p0, 1, 3);
            lemma_shifted_at(p1, p0, 1, 4);
        }
        let r = self.parse_lea();
        proof {
            match lea_failure(p1.ahead(0), p1.ahead(1), p1.ahead(2), p1.ahead(3), p1.ahead(4)) {
                Some((kind, k)) => {
                    lemma_shifted_at(p1, p0, 1, k as nat);
                },
                None => {},
            }
        }
        proof {
            if r is Ok {
                lemma_shifted_trans(*self, p1, p0, 5, 1);
            }
        }
        r
    }

    /// Parses the next statement: a label definition, a Move, a Lea or a
    /// Nop, or `ProgramEnd` at the end of the source. Which one, and which
    /// error if none fits, follows from the types of the next six tokens.
    pub fn parse(&mut self) -> (r: Result<Ast<'a>, ParserError>)
        requires
            old(self).wf(),
        ensures
            final(self).wf(),
            r matches Ok(ast) ==> (ast is ProgramEnd <==> old(self).ahead(0) is EndOfFile),
            r matches Ok(ast) && !(ast is ProgramEnd) ==> final(self).remaining() < old(
                self,
            ).remaining(),
            r is Ok ==> final(self).shifted(old(self), statement_span(old(self).window())),
            match parse_failure(old(self).window()) {
                Some((kind, k)) => r matches Err(e) && error_at(e, kind, *old(self), k as nat),
                None => r matches Ok(ast) && ast_shape(ast, old(self).window()),
            },
    {
        let ghost p0 = *self;
        match self.curr_token.token_type() {
            TokenType::Identifier => {
                let r = self.parse_label_definition();
                proof {
                    if r is Ok {
                        lemma_shifted_at(*self, p0, 2, 0);
                    }
                    if r is Ok {
                        assert(statement_span(p0.window()) == 2);
                    }
                }
                r
            },
            TokenType::Move => {
                let r = self.parse_move_statement();
                proof {
                    if r is Ok {
                        lemma_shifted_at(*self, p0, 6, 0);
                    }
                }
                r
            },
            TokenType::Lea => {
                let r = self.parse_lea_statement();
                proof {
                    if r is Ok {
                        lemma_shifted_at(*self, p0, 6, 0);
                    }
                }
                r
            },
            TokenType::Nop => {
                self.advance();
                proof {
                    lemma_shifted_at(*self, p0, 1, 0);
                }
                Ok(Ast::Nop { repr: self.curr_token })
            },
            TokenType::EndOfFile => {
                proof {
                    lemma_shifted_none(*self);
                }
                Ok(Ast::ProgramEnd)
            },
            _ => Err(self.invalid_operand()),
        }
    }
}

} // verus!
