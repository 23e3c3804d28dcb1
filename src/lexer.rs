use vstd::prelude::*;
use vstd::string::StringSliceAdditionalSpecFns;

verus! {

/// The kind of a token, with the value of a numeric literal. A literal's
/// width (byte, word or dword) is the smallest that holds its magnitude.
#[derive(Debug, PartialEq, Eq, Copy, Clone, Structural)]
pub enum TokenType {
    Identifier,
    Move,
    Lea,
    Nop,
    Byte,
    Word,
    Dword,
    D0,
    D1,
    D2,
    D3,
    D4,
    D5,
    D6,
    D7,
    D8,
    D9,
    D10,
    D11,
    D12,
    D13,
    D14,
    D15,
    A0,
    A1,
    A2,
    A3,
    A4,
    A5,
    A6,
    A7,
    A8,
    A9,
    A10,
    A11,
    A12,
    A13,
    A14,
    A15,
    ByteHexNumber(u8),
    ByteDecimalNumber(i8),
    ByteBinaryNumber(u8),
    WordHexNumber(u16),
    WordDecimalNumber(i16),
    WordBinaryNumber(u16),
    DwordHexNumber(u32),
    DwordDecimalNumber(i32),
    DwordBinaryNumber(u32),
    PoundSign,
    Percent,
    DollarSign,
    OpenParen,
    CloseParen,
    Comma,
    Dot,
    Colon,
    Plus,
    Minus,
    EndOfFile,
    /// A byte that starts no token, or a numeric literal that is malformed
    /// or does not fit in 32 bits.
    Invalid,
}

/// ASCII letter.
pub open spec fn is_alpha(b: u8) -> bool {
    (0x41 <= b && b <= 0x5A) || (0x61 <= b && b <= 0x7A)
}

/// ASCII decimal digit.
pub open spec fn is_digit(b: u8) -> bool {
    0x30 <= b && b <= 0x39
}

/// ASCII hexadecimal digit, either case.
pub open spec fn is_hex_digit(b: u8) -> bool {
    is_digit(b) || (0x41 <= b && b <= 0x46) || (0x61 <= b && b <= 0x66)
}

/// `0` or `1`.
pub open spec fn is_bin_digit(b: u8) -> bool {
    b == 0x30 || b == 0x31
}

/// A byte that may continue an identifier.
pub open spec fn is_ident_byte(b: u8) -> bool {
    is_alpha(b) || is_digit(b) || b == 0x5F
}

/// A byte of a decimal literal's text: a digit or a minus sign.
pub open spec fn is_decimal_byte(b: u8) -> bool {
    is_digit(b) || b == 0x2D
}

/// ASCII whitespace: space, tab, line feed, form feed, carriage return.
pub open spec fn is_space(b: u8) -> bool {
    b == 0x20 || b == 0x09 || b == 0x0A || b == 0x0C || b == 0x0D
}

/// Whitespace that advances the line counter: line feed, tab, carriage return.
pub open spec fn counts_line(b: u8) -> bool {
    b == 0x0A || b == 0x09 || b == 0x0D
}

/// The kinds of byte runs that form a token's text.
#[derive(Debug, PartialEq, Eq, Copy, Clone, Structural)]
pub enum ByteClass {
    Identifier,
    Decimal,
    Hex,
    Binary,
}

/// Whether byte `b` belongs to a run of kind `class`.
pub open spec fn in_class(class: ByteClass, b: u8) -> bool {
    match class {
        ByteClass::Identifier => is_ident_byte(b),
        ByteClass::Decimal => is_decimal_byte(b),
        ByteClass::Hex => is_hex_digit(b),
        ByteClass::Binary => is_bin_digit(b),
    }
}

/// The end of the run of bytes of kind `class` that starts at `pos`.
pub open spec fn run_end(src: Seq<u8>, pos: int, class: ByteClass) -> int
    decreases src.len() - pos,
{
    if 0 <= pos < src.len() && in_class(class, src[pos]) {
        run_end(src, pos + 1, class)
    } else {
        pos
    }
}

/// Position and line after the whitespace that starts at `pos`.
pub open spec fn skip_space(src: Seq<u8>, pos: int, line: int) -> (int, int)
    decreases src.len() - pos,
{
    if 0 <= pos < src.len() && is_space(src[pos]) {
        skip_space(src, pos + 1, if counts_line(src[pos]) { line + 1 } else { line })
    } else {
        (pos, line)
    }
}

/// ASCII lower case of a byte.
pub open spec fn lower(b: u8) -> u8 {
    if 0x41 <= b && b <= 0x5A {
        (b + 32) as u8
    } else {
        b
    }
}

/// Register token number `n` (0..15) of the data or address bank.
pub open spec fn register_token(n: int, address: bool) -> TokenType {
        if n == 0 {
            if address {
                TokenType::A0
            } else {
                TokenType::D0
            }
        } else if n == 1 {
            if address {
                TokenType::A1
            } else {
                TokenType::D1
            }
        } else if n == 2 {
            if address {
                TokenType::A2
            } else {
                TokenType::D2
            }
        } else if n == 3 {
            if address {
                TokenType::A3
            } else {
                TokenType::D3
            }
        } else if n == 4 {
            if address {
                TokenType::A4
            } else {
                TokenType::D4
            }
        } else if n == 5 {
            if address {
                TokenType::A5
            } else {
                TokenType::D5
            }
        } else if n == 6 {
            if address {
                TokenType::A6
            } else {
                TokenType::D6
            }
        } else if n == 7 {
            if address {
                TokenType::A7
            } else {
                TokenType::D7
            }
        } else if n == 8 {
            if address {
                TokenType::A8
            } else {
                TokenType::D8
            }
        } else if n == 9 {
            if address {
                TokenType::A9
            } else {
                TokenType::D9
            }
        } else if n == 10 {
            if address {
                TokenType::A10
            } else {
                TokenType::D10
            }
        } else if n == 11 {
            if address {
                TokenType::A11
            } else {
                TokenType::D11
            }
        } else if n == 12 {
            if address {
                TokenType::A12
            } else {
                TokenType::D12
            }
        } else if n == 13 {
            if address {
                TokenType::A13
            } else {
                TokenType::D13
            }
        } else if n == 14 {
            if address {
                TokenType::A14
            } else {
                TokenType::D14
            }
        } else if n == 15 {
            if address {
                TokenType::A15
            } else {
                TokenType::D15
            }
        } else if address {
            TokenType::A15
        } else {
            TokenType::D15
        }
}

/// ASCII lower case of every byte of `s`.
pub open spec fn lowered(s: Seq<u8>) -> Seq<u8> {
    s.map_values(|b: u8| lower(b))
}

/// The register number that `rest` spells: `0`..`9` or `10`..`15`.
pub open spec fn register_number(rest: Seq<u8>) -> Option<int> {
    if rest.len() == 1 && is_digit(rest[0]) {
        Some(rest[0] - 0x30)
    } else if rest.len() == 2 && rest[0] == 0x31 && 0x30 <= rest[1] && rest[1] <= 0x35 {
        Some(10 + rest[1] - 0x30)
    } else {
        None
    }
}

/// The token type of an identifier's text; keywords and register names
/// are matched without regard to case.
pub open spec fn keyword_type(s: Seq<u8>) -> TokenType {
    let l = lowered(s);
    if l == seq![0x6Eu8, 0x6F, 0x70] {
        TokenType::Nop
    } else if l == seq![0x6Du8, 0x6F, 0x76, 0x65] {
        TokenType::Move
    } else if l == seq![0x6Cu8, 0x65, 0x61] {
        TokenType::Lea
    } else if l == seq![0x62u8] {
        TokenType::Byte
    } else if l == seq![0x77u8] {
        TokenType::Word
    } else if l == seq![0x64u8, 0x77] {
        TokenType::Dword
    } else if l.len() >= 2 && (l[0] == 0x64 || l[0] == 0x61) && register_number(l.drop_first()) is Some {
        register_token(register_number(l.drop_first())->Some_0, l[0] == 0x61)
    } else {
        TokenType::Identifier
    }
}

/// Value of digit byte `b`.
pub open spec fn digit_value(b: u8) -> int {
    if is_digit(b) {
        b - 0x30
    } else if 0x41 <= b && b <= 0x46 {
        b - 0x41 + 10
    } else {
        b - 0x61 + 10
    }
}

/// The value of the digits `s` in base `radix`.
pub open spec fn digits_value(s: Seq<u8>, radix: int) -> int
    decreases s.len(),
{
    if s.len() == 0 {
        0
    } else {
        digits_value(s.drop_last(), radix) * radix + digit_value(s.last())
    }
}

/// Whether `b` is a digit of base `radix` (2, 10 or 16).
pub open spec fn is_radix_digit(b: u8, radix: int) -> bool {
    if radix == 2 {
        is_bin_digit(b)
    } else if radix == 10 {
        is_digit(b)
    } else {
        is_hex_digit(b)
    }
}

/// The value of `s` read in base `radix`, if `s` is a non-empty run of
/// such digits whose value fits in 32 bits.
pub open spec fn parse_spec(s: Seq<u8>, radix: int) -> Option<u32> {
    if s.len() > 0 && (forall|i: int| 0 <= i < s.len() ==> is_radix_digit(#[trigger] s[i], radix))
        && digits_value(s, radix) <= u32::MAX {
        Some(digits_value(s, radix) as u32)
    } else {
        None
    }
}

/// The token type of a decimal literal's text: an optional minus sign and
/// digits. Its width follows the magnitude; the value is cut to that width.
pub open spec fn decimal_type(s: Seq<u8>) -> TokenType {
    let negative = s.len() > 0 && s[0] == 0x2D;
    let digits = if negative { s.drop_first() } else { s };
    match parse_spec(digits, 10) {
        Some(m) => {
            let v: int = if negative { -m } else { m as int };
            if m <= 0xFF {
                TokenType::ByteDecimalNumber(v as i8)
            } else if m <= 0xFFFF {
                TokenType::WordDecimalNumber(v as i16)
            } else {
                TokenType::DwordDecimalNumber(v as i32)
            }
        },
        None => TokenType::Invalid,
    }
}

/// The token type of a hexadecimal literal's digits.
pub open spec fn hex_type(s: Seq<u8>) -> TokenType {
    match parse_spec(s, 16) {
        Some(m) => if m <= 0xFF {
            TokenType::ByteHexNumber(m as u8)
        } else if m <= 0xFFFF {
            TokenType::WordHexNumber(m as u16)
        } else {
            TokenType::DwordHexNumber(m)
        },
        None => TokenType::Invalid,
    }
}

/// The token type of a binary literal's digits.
pub open spec fn binary_type(s: Seq<u8>) -> TokenType {
    match parse_spec(s, 2) {
        Some(m) => if m <= 0xFF {
            TokenType::ByteBinaryNumber(m as u8)
        } else if m <= 0xFFFF {
            TokenType::WordBinaryNumber(m as u16)
        } else {
            TokenType::DwordBinaryNumber(m)
        },
        None => TokenType::Invalid,
    }
}

/// The operator that byte `b` spells, if any.
pub open spec fn operator_type(b: u8) -> TokenType {
    if b == 0x23 {
        TokenType::PoundSign
    } else if b == 0x25 {
        TokenType::Percent
    } else if b == 0x24 {
        TokenType::DollarSign
    } else if b == 0x28 {
        TokenType::OpenParen
    } else if b == 0x29 {
        TokenType::CloseParen
    } else if b == 0x2C {
        TokenType::Comma
    } else if b == 0x2E {
        TokenType::Dot
    } else if b == 0x3A {
        TokenType::Colon
    } else if b == 0x2B {
        TokenType::Plus
    } else if b == 0x2D {
        TokenType::Minus
    } else {
        TokenType::Invalid
    }
}

/// Whether every byte of `s` is ASCII.
pub open spec fn all_ascii(s: Seq<u8>) -> bool {
    forall|i: int| 0 <= i < s.len() ==> #[trigger] s[i] < 0x80
}

/// The text a token shows: the bytes it spans when they are ASCII, else none.
pub open spec fn lexeme(src: Seq<u8>, start: int, end: int) -> Seq<u8> {
    if all_ascii(src.subrange(start, end)) {
        src.subrange(start, end)
    } else {
        Seq::empty()
    }
}

/// The token that starts after the whitespace at `pos`: its type, its span
/// `[start, end)`, and the position where scanning resumes.
pub open spec fn scan_spec(src: Seq<u8>, p: int) -> (TokenType, int, int, int) {
    if p >= src.len() {
        (TokenType::EndOfFile, p, p, p)
    } else {
        let c = src[p];
        let has_next = p + 1 < src.len();
        if is_alpha(c) || c == 0x5F {
            let e = run_end(src, p, ByteClass::Identifier);
            (keyword_type(src.subrange(p, e)), p, e, e)
        } else if c == 0x23 && has_next && is_decimal_byte(src[p + 1]) {
            let e = run_end(src, p + 1, ByteClass::Decimal);
            (decimal_type(src.subrange(p + 1, e)), p + 1, e, e)
        } else if c == 0x24 && has_next && is_hex_digit(src[p + 1]) {
            let e = run_end(src, p + 1, ByteClass::Hex);
            (hex_type(src.subrange(p + 1, e)), p + 1, e, e)
        } else if c == 0x25 && has_next && is_bin_digit(src[p + 1]) {
            let e = run_end(src, p + 1, ByteClass::Binary);
            (binary_type(src.subrange(p + 1, e)), p + 1, e, e)
        } else {
            (operator_type(c), p, p + 1, p + 1)
        }
    }
}

/// One token of the source, with the text it spans and where it stands.
#[derive(Debug, Eq, PartialEq, Copy, Clone)]
pub struct Token<'a> {
    pub token_type: TokenType,
    pub repr: &'a str,
    pub start: usize,
    pub end: usize,
    pub line: usize,
}


/// Relies on std::str::from_utf8: bytes that are all ASCII are valid UTF-8,
/// and the string it returns holds exactly the bytes it was given.
#[verifier::external_body]
fn ascii_text<'a>(bytes: &'a [u8]) -> (r: &'a str)
    requires
        all_ascii(bytes@),
    ensures
        r.spec_bytes() == bytes@,
{
    std::str::from_utf8(bytes).unwrap_or("")
}

/// The text of a token that spans `bytes`: the bytes themselves when they
/// are ASCII, else the empty string.
fn token_text<'a>(bytes: &'a [u8]) -> (r: &'a str)
    ensures
        r.spec_bytes() == (if all_ascii(bytes@) {
            bytes@
        } else {
            Seq::empty()
        }),
{
    let mut i: usize = 0;
    while i < bytes.len()
        invariant
            0 <= i <= bytes@.len(),
            forall|j: int| 0 <= j < i ==> #[trigger] bytes@[j] < 0x80,
        decreases bytes@.len() - i,
    {
        if bytes[i] >= 0x80 {
            let empty = vstd::slice::slice_subrange(bytes, 0, 0);
            assert(empty@ =~= Seq::<u8>::empty());
            return ascii_text(empty);
        }
        i = i + 1;
    }
    ascii_text(bytes)
}

fn lower_byte(b: u8) -> (r: u8)
    ensures
        r == lower(b),
{
    if 0x41 <= b && b <= 0x5A {
        b + 32
    } else {
        b
    }
}

fn is_digit_byte(b: u8) -> (r: bool)
    ensures
        r == is_digit(b),
{
    0x30 <= b && b <= 0x39
}

fn register_token_of(n: u8, address: bool) -> (r: TokenType)
    ensures
        r == register_token(n as int, address),
{
    if n == 0 {
        if address {
            TokenType::A0
        } else {
            TokenType::D0
        }
    } else if n == 1 {
        if address {
            TokenType::A1
        } else {
            TokenType::D1
        }
    } else if n == 2 {
        if address {
            TokenType::A2
        } else {
            TokenType::D2
        }
    } else if n == 3 {
        if address {
            TokenType::A3
        } else {
            TokenType::D3
        }
    } else if n == 4 {
        if address {
            TokenType::A4
        } else {
            TokenType::D4
        }
    } else if n == 5 {
        if address {
            TokenType::A5
        } else {
            TokenType::D5
        }
    } else if n == 6 {
        if address {
            TokenType::A6
        } else {
            TokenType::D6
        }
    } else if n == 7 {
        if address {
            TokenType::A7
        } else {
            TokenType::D7
        }
    } else if n == 8 {
        if address {
            TokenType::A8
        } else {
            TokenType::D8
        }
    } else if n == 9 {
        if address {
            TokenType::A9
        } else {
            TokenType::D9
        }
    } else if n == 10 {
        if address {
            TokenType::A10
        } else {
            TokenType::D10
        }
    } else if n == 11 {
        if address {
            TokenType::A11
        } else {
            TokenType::D11
        }
    } else if n == 12 {
        if address {
            TokenType::A12
        } else {
            TokenType::D12
        }
    } else if n == 13 {
        if address {
            TokenType::A13
        } else {
            TokenType::D13
        }
    } else if n == 14 {
        if address {
            TokenType::A14
        } else {
            TokenType::D14
        }
    } else if n == 15 {
        if address {
            TokenType::A15
        } else {
            TokenType::D15
        }
    } else if address {
        TokenType::A15
    } else {
        TokenType::D15
    }
}

/// The token type of an identifier's text.
fn classify_identifier(s: &[u8]) -> (r: TokenType)
    ensures
        r == keyword_type(s@),
{
    let n = s.len();
    let ghost l = lowered(s@);
    assert(l.len() == n);
    if n == 3 && lower_byte(s[0]) == 0x6E && lower_byte(s[1]) == 0x6F && lower_byte(s[2]) == 0x70 {
        assert(l =~= seq![0x6Eu8, 0x6F, 0x70]);
        return TokenType::Nop;
    }
    if n == 4 && lower_byte(s[0]) == 0x6D && lower_byte(s[1]) == 0x6F && lower_byte(s[2]) == 0x76
        && lower_byte(s[3]) == 0x65 {
        assert(l =~= seq![0x6Du8, 0x6F, 0x76, 0x65]);
        return TokenType::Move;
    }
    if n == 3 && lower_byte(s[0]) == 0x6C && lower_byte(s[1]) == 0x65 && lower_byte(s[2]) == 0x61 {
        assert(l =~= seq![0x6Cu8, 0x65, 0x61]);
        return TokenType::Lea;
    }
    if n == 1 && lower_byte(s[0]) == 0x62 {
        assert(l =~= seq![0x62u8]);
        return TokenType::Byte;
    }
    if n == 1 && lower_byte(s[0]) == 0x77 {
        assert(l =~= seq![0x77u8]);
        return TokenType::Word;
    }
    if n == 2 && lower_byte(s[0]) == 0x64 && lower_byte(s[1]) == 0x77 {
        assert(l =~= seq![0x64u8, 0x77]);
        return TokenType::Dword;
    }
    proof {
        assert(l != seq![0x6Eu8, 0x6F, 0x70] ) by {
            if l == seq![0x6Eu8, 0x6F, 0x70] {
                assert(l[0] == 0x6E && l[1] == 0x6F && l[2] == 0x70);
            }
        }
        assert(l != seq![0x6Du8, 0x6F, 0x76, 0x65]) by {
            if l == seq![0x6Du8, 0x6F, 0x76, 0x65] {
                assert(l[0] == 0x6D && l[1] == 0x6F && l[2] == 0x76 && l[3] == 0x65);
            }
        }
        assert(l != seq![0x6Cu8, 0x65, 0x61]) by {
            if l == seq![0x6Cu8, 0x65, 0x61] {
                assert(l[0] == 0x6C && l[1] == 0x65 && l[2] == 0x61);
            }
        }
        assert(l != seq![0x62u8]) by {
            if l == seq![0x62u8] {
                assert(l[0] == 0x62);
            }
        }
        assert(l != seq![0x77u8]) by {
            if l == seq![0x77u8] {
                assert(l[0] == 0x77);
            }
        }
        assert(l != seq![0x64u8, 0x77]) by {
            if l == seq![0x64u8, 0x77] {
                assert(l[0] == 0x64 && l[1] == 0x77);
            }
        }
    }
    if n == 2 || n == 3 {
        let first = lower_byte(s[0]);
        if first == 0x64 || first == 0x61 {
            let ghost rest = l.drop_first();
            let address = first == 0x61;
            if n == 2 && is_digit_byte(s[1]) {
                assert(rest.len() == 1 && rest[0] == s@[1]);
                return register_token_of(s[1] - 0x30, address);
            }
            if n == 3 && s[1] == 0x31 && 0x30 <= s[2] && s[2] <= 0x35 {
                assert(rest.len() == 2 && rest[0] == s@[1] && rest[1] == s@[2]);
                return register_token_of(10 + s[2] - 0x30, address);
            }
            assert(register_number(rest) is None) by {
                if n == 2 {
                    assert(rest[0] == lower(s@[1]));
                } else {
                    assert(rest[0] == lower(s@[1]) && rest[1] == lower(s@[2]));
                }
            }
        }
    }
    TokenType::Identifier
}

/// Reading more digits never gives a smaller value.
proof fn lemma_digits_value_grows(s: Seq<u8>, radix: int, k: int)
    requires
        2 <= radix,
        0 <= k <= s.len(),
        forall|i: int| 0 <= i < s.len() ==> is_radix_digit(#[trigger] s[i], radix),
    ensures
        digits_value(s, radix) >= digits_value(s.subrange(0, k), radix),
        digits_value(s, radix) >= 0,
    decreases s.len(),
{
    if s.len() == 0 {
        assert(s.subrange(0, k) =~= s);
    } else {
        let t = s.drop_last();
        assert forall|i: int| 0 <= i < t.len() implies is_radix_digit(#[trigger] t[i], radix) by {
            assert(t[i] == s[i]);
        }
        assert(is_radix_digit(s[s.len() - 1], radix));
        if k == s.len() {
            assert(s.subrange(0, k) =~= s);
            lemma_digits_value_grows(t, radix, 0);
        } else {
            lemma_digits_value_grows(t, radix, k);
            assert(t.subrange(0, k) =~= s.subrange(0, k));
        }
        let v = digits_value(t, radix);
        let d = digit_value(s.last());
        assert(d >= 0);
        assert(v * radix + d >= v) by (nonlinear_arith)
            requires
                v >= 0,
                radix >= 2,
                d >= 0,
        ;
    }
}

fn is_radix_digit_byte(b: u8, radix: u32) -> (r: bool)
    requires
        radix == 2 || radix == 10 || radix == 16,
    ensures
        r == is_radix_digit(b, radix as int),
{
    if radix == 2 {
        b == 0x30 || b == 0x31
    } else if radix == 10 {
        is_digit_byte(b)
    } else {
        is_digit_byte(b) || (0x41 <= b && b <= 0x46) || (0x61 <= b && b <= 0x66)
    }
}

fn digit_value_of(b: u8) -> (r: u64)
    requires
        is_hex_digit(b),
    ensures
        r == digit_value(b),
        r < 16,
{
    if is_digit_byte(b) {
        (b - 0x30) as u64
    } else if 0x41 <= b && b <= 0x46 {
        (b - 0x41 + 10) as u64
    } else {
        (b - 0x61 + 10) as u64
    }
}

/// Reads `s` as a number in base `radix`; `None` unless `s` is a non-empty
/// run of such digits whose value fits in 32 bits.
fn parse_number(s: &[u8], radix: u32) -> (r: Option<u32>)
    requires
        radix == 2 || radix == 10 || radix == 16,
    ensures
        r == parse_spec(s@, radix as int),
{
    if s.len() == 0 {
        return None;
    }
    let mut acc: u64 = 0;
    let mut i: usize = 0;
    while i < s.len()
        invariant
            0 <= i <= s@.len(),
            radix == 2 || radix == 10 || radix == 16,
            acc == digits_value(s@.subrange(0, i as int), radix as int),
            acc <= u32::MAX,
            forall|j: int| 0 <= j < i ==> is_radix_digit(#[trigger] s@[j], radix as int),
        decreases s@.len() - i,
    {
        let b = s[i];
        if !is_radix_digit_byte(b, radix) {
            assert(!is_radix_digit(s@[i as int], radix as int));
            return None;
        }
        assert(acc * radix <= 0xFFFF_FFFFu64 * 16) by (nonlinear_arith)
            requires
                acc <= 0xFFFF_FFFFu64,
                radix <= 16,
        ;
        let next = acc * (radix as u64) + digit_value_of(b);
        assert(s@.subrange(0, i + 1).drop_last() =~= s@.subrange(0, i as int));
        if next > u32::MAX as u64 {
            proof {
                if forall|j: int| 0 <= j < s@.len() ==> is_radix_digit(#[trigger] s@[j], radix as int) {
                    lemma_digits_value_grows(s@, radix as int, i + 1);
                }
            }
            return None;
        }
        acc = next;
        i = i + 1;
    }
    assert(s@.subrange(0, s@.len() as int) =~= s@);
    Some(acc as u32)
}

enum BitWidth {
    Byte,
    Word,
    Dword,
}

impl<'a> Token<'a> {
    fn new_identifier(repr: &'a [u8], start: usize, end: usize, line: usize) -> (r: Self)
        ensures
            r.token_type == keyword_type(repr@),
            r.repr.spec_bytes() == (if all_ascii(repr@) {
                repr@
            } else {
                Seq::empty()
            }),
            r.start == start,
            r.end == end,
            r.line == line,
    {
        let token_type = classify_identifier(repr);
        Token { token_type, repr: token_text(repr), start, end, line }
    }

    fn convert_typed_value(value: u32) -> (r: BitWidth)
        ensures
            r is Byte <==> value <= 0xFF,
            r is Word <==> 0xFF < value <= 0xFFFF,
            r is Dword <==> 0xFFFF < value,
    {
        if value <= 0xFF {
            BitWidth::Byte
        } else if value <= 0xFFFF {
            BitWidth::Word
        } else {
            BitWidth::Dword
        }
    }

    fn new_number(repr: &'a [u8], start: usize, end: usize, line: usize) -> (r: Self)
        ensures
            r.token_type == decimal_type(repr@),
            r.repr.spec_bytes() == (if all_ascii(repr@) {
                repr@
            } else {
                Seq::empty()
            }),
            r.start == start,
            r.end == end,
            r.line == line,
    {
        let negative = repr.len() > 0 && repr[0] == 0x2D;
        let digits = if negative {
            vstd::slice::slice_subrange(repr, 1, repr.len())
        } else {
            repr
        };
        assert(negative ==> digits@ =~= repr@.drop_first());
        let token_type = match parse_number(digits, 10) {
            Some(m) => {
                let v: i64 = if negative {
                    -(m as i64)
                } else {
                    m as i64
                };
                match Token::convert_typed_value(m) {
                    BitWidth::Byte => TokenType::ByteDecimalNumber(v as i8),
                    BitWidth::Word => TokenType::WordDecimalNumber(v as i16),
                    BitWidth::Dword => TokenType::DwordDecimalNumber(v as i32),
                }
            },
            None => TokenType::Invalid,
        };
        Token { token_type, repr: token_text(repr), start, end, line }
    }

    fn new_binary_number(repr: &'a [u8], start: usize, end: usize, line: usize) -> (r: Self)
        ensures
            r.token_type == binary_type(repr@),
            r.repr.spec_bytes() == (if all_ascii(repr@) {
                repr@
            } else {
                Seq::empty()
            }),
            r.start == start,
            r.end == end,
            r.line == line,
    {
        let token_type = match parse_number(repr, 2) {
            Some(m) => match Token::convert_typed_value(m) {
                BitWidth::Byte => TokenType::ByteBinaryNumber(m as u8),
                BitWidth::Word => TokenType::WordBinaryNumber(m as u16),
                BitWidth::Dword => TokenType::DwordBinaryNumber(m),
            },
            None => TokenType::Invalid,
        };
        Token { token_type, repr: token_text(repr), start, end, line }
    }

    fn new_hex_number(repr: &'a [u8], start: usize, end: usize, line: usize) -> (r: Self)
        ensures
            r.token_type == hex_type(repr@),
            r.repr.spec_bytes() == (if all_ascii(repr@) {
                repr@
            } else {
                Seq::empty()
            }),
            r.start == start,
            r.end == end,
            r.line == line,
    {
        let token_type = match parse_number(repr, 16) {
            Some(m) => match Token::convert_typed_value(m) {
                BitWidth::Byte => TokenType::ByteHexNumber(m as u8),
                BitWidth::Word => TokenType::WordHexNumber(m as u16),
                BitWidth::Dword => TokenType::DwordHexNumber(m),
            },
            None => TokenType::Invalid,
        };
        Token { token_type, repr: token_text(repr), start, end, line }
    }

    fn eof(empty: &'a [u8], start: usize, line: usize) -> (r: Self)
        requires
            empty@.len() == 0,
        ensures
            r.token_type == TokenType::EndOfFile,
            r.repr.spec_bytes() == Seq::<u8>::empty(),
            r.start == start,
            r.end == start,
            r.line == line,
    {
        assert(empty@ =~= Seq::<u8>::empty());
        Token { token_type: TokenType::EndOfFile, repr: token_text(empty), start, end: start, line }
    }

    fn new_operator(operator: TokenType, repr: &'a [u8], start: usize, end: usize, line: usize) -> (r: Self)
        ensures
            r.token_type == operator,
            r.repr.spec_bytes() == (if all_ascii(repr@) {
                repr@
            } else {
                Seq::empty()
            }),
            r.start == start,
            r.end == end,
            r.line == line,
    {
        Token { token_type: operator, repr: token_text(repr), start, end, line }
    }

    /// Operators are the ten punctuation tokens.
    pub open spec fn spec_is_operator(self) -> bool {
        match self.token_type {
            TokenType::PoundSign | TokenType::Percent | TokenType::DollarSign
            | TokenType::OpenParen | TokenType::CloseParen | TokenType::Comma | TokenType::Dot
            | TokenType::Colon | TokenType::Plus | TokenType::Minus => true,
            _ => false,
        }
    }

    /// Whether this token is one of the punctuation operators.
    pub fn is_operator(&self) -> (r: bool)
        ensures
            r == self.spec_is_operator(),
    {
        match self.token_type {
            TokenType::PoundSign | TokenType::Percent | TokenType::DollarSign
            | TokenType::OpenParen | TokenType::CloseParen | TokenType::Comma | TokenType::Dot
            | TokenType::Colon | TokenType::Plus | TokenType::Minus => true,
            _ => false,
        }
    }

    /// The token's type.
    pub fn token_type(&self) -> (r: TokenType)
        ensures
            r == self.token_type,
    {
        self.token_type
    }

    /// The text the token spans.
    pub fn get_repr(&self) -> (r: &'a str)
        ensures
            r == self.repr,
    {
        self.repr
    }

    /// The line the token stands on, counted from 1.
    pub fn get_line(&self) -> (r: usize)
        ensures
            r == self.line,
    {
        self.line
    }

    /// The byte offset where the token's text starts.
    pub fn get_position(&self) -> (r: usize)
        ensures
            r == self.start,
    {
        self.start
    }

    /// Whether this token is a plain identifier, not a keyword or register.
    pub fn is_identifier(&self) -> (r: bool)
        ensures
            r == (self.token_type is Identifier),
    {
        match self.token_type {
            TokenType::Identifier => true,
            _ => false,
        }
    }

    /// Identifiers, the mnemonics Move and Lea, the size names and the
    /// register names.
    pub open spec fn spec_is_keyword(self) -> bool {
        match self.token_type {
            TokenType::Identifier | TokenType::Move | TokenType::Lea | TokenType::Byte
            | TokenType::Word | TokenType::Dword => true,
            t => is_register_token(t),
        }
    }

    /// Whether this token is an identifier, Move, Lea, a size name or a
    /// register name.
    pub fn is_keyword(&self) -> (r: bool)
        ensures
            r == self.spec_is_keyword(),
    {
        match self.token_type {
            TokenType::Identifier
            | TokenType::Move
            | TokenType::Lea
            | TokenType::Byte
            | TokenType::Word
            | TokenType::Dword
            | TokenType::D0
            | TokenType::D1
            | TokenType::D2
            | TokenType::D3
            | TokenType::D4
            | TokenType::D5
            | TokenType::D6
            | TokenType::D7
            | TokenType::D8
            | TokenType::D9
            | TokenType::D10
            | TokenType::D11
            | TokenType::D12
            | TokenType::D13
            | TokenType::D14
            | TokenType::D15
            | TokenType::A0
            | TokenType::A1
            | TokenType::A2
            | TokenType::A3
            | TokenType::A4
            | TokenType::A5
            | TokenType::A6
            | TokenType::A7
            | TokenType::A8
            | TokenType::A9
            | TokenType::A10
            | TokenType::A11
            | TokenType::A12
            | TokenType::A13
            | TokenType::A14
            | TokenType::A15 => true,
            _ => false,
        }
    }

    /// Whether this token is a numeric literal of any base and width.
    pub open spec fn spec_is_number(self) -> bool {
        is_number_token(self.token_type)
    }

    /// Whether this token is a numeric literal of any base and width.
    pub fn is_number(&self) -> (r: bool)
        ensures
            r == self.spec_is_number(),
    {
        match self.token_type {
            TokenType::ByteHexNumber(_) | TokenType::ByteDecimalNumber(_)
            | TokenType::ByteBinaryNumber(_) | TokenType::WordHexNumber(_)
            | TokenType::WordDecimalNumber(_) | TokenType::WordBinaryNumber(_)
            | TokenType::DwordHexNumber(_) | TokenType::DwordDecimalNumber(_)
            | TokenType::DwordBinaryNumber(_) => true,
            _ => false,
        }
    }
}

/// Numeric literal token types.
pub open spec fn is_number_token(t: TokenType) -> bool {
    match t {
        TokenType::ByteHexNumber(_) | TokenType::ByteDecimalNumber(_)
        | TokenType::ByteBinaryNumber(_) | TokenType::WordHexNumber(_)
        | TokenType::WordDecimalNumber(_) | TokenType::WordBinaryNumber(_)
        | TokenType::DwordHexNumber(_) | TokenType::DwordDecimalNumber(_)
        | TokenType::DwordBinaryNumber(_) => true,
        _ => false,
    }
}

/// Data register token types D0..D15.
pub open spec fn is_data_register_token(t: TokenType) -> bool {
    match t {
        TokenType::D0
        | TokenType::D1
        | TokenType::D2
        | TokenType::D3
        | TokenType::D4
        | TokenType::D5
        | TokenType::D6
        | TokenType::D7
        | TokenType::D8
        | TokenType::D9
        | TokenType::D10
        | TokenType::D11
        | TokenType::D12
        | TokenType::D13
        | TokenType::D14
        | TokenType::D15 => true,
        _ => false,
    }
}

/// Address register token types A0..A15.
pub open spec fn is_address_register_token(t: TokenType) -> bool {
    match t {
        TokenType::A0
        | TokenType::A1
        | TokenType::A2
        | TokenType::A3
        | TokenType::A4
        | TokenType::A5
        | TokenType::A6
        | TokenType::A7
        | TokenType::A8
        | TokenType::A9
        | TokenType::A10
        | TokenType::A11
        | TokenType::A12
        | TokenType::A13
        | TokenType::A14
        | TokenType::A15 => true,
        _ => false,
    }
}

/// Register token types D0..D15 and A0..A15.
pub open spec fn is_register_token(t: TokenType) -> bool {
    is_data_register_token(t) || is_address_register_token(t)
}

/// Splits assembly source text into tokens, one call of `next` at a time.
pub struct Tokenizer<'a> {
    source: &'a [u8],
    line: usize,
    position: usize,
}

impl<'a> Tokenizer<'a> {
    /// The bytes of the source text.
    pub closed spec fn source_bytes(&self) -> Seq<u8> {
        self.source@
    }

    /// The offset of the next byte to scan.
    pub closed spec fn pos(&self) -> int {
        self.position as int
    }

    /// The line of the next byte to scan, counted from 1.
    pub closed spec fn current_line(&self) -> int {
        self.line as int
    }

    /// The position lies within the source and the line count within the
    /// number of bytes scanned.
    pub closed spec fn wf(&self) -> bool {
        &&& self.position <= self.source@.len()
        &&& self.source@.len() < usize::MAX
        &&& 1 <= self.line <= self.position + 1
    }

    /// The position of a valid tokenizer lies within its source.
    pub proof fn lemma_wf_bounds(&self)
        requires
            self.wf(),
        ensures
            0 <= self.pos() <= self.source_bytes().len(),
    {
    }

    /// A tokenizer at the start of `source`, on line 1.
    pub fn new(source: &'a str) -> (r: Self)
        requires
            source.spec_bytes().len() < usize::MAX,
        ensures
            r.wf(),
            r.source_bytes() == source.spec_bytes(),
            r.pos() == 0,
            r.current_line() == 1,
    {
        Tokenizer { source: source.as_bytes(), line: 1, position: 0 }
    }

    /// The offset of the next byte to scan.
    pub fn position(&self) -> (r: usize)
        ensures
            r == self.pos(),
    {
        self.position
    }

    /// The line of the next byte to scan.
    pub fn line(&self) -> (r: usize)
        ensures
            r == self.current_line(),
    {
        self.line
    }

    fn advance(&mut self)
        requires
            old(self).wf(),
        ensures
            final(self).wf(),
            final(self).source_bytes() == old(self).source_bytes(),
            final(self).current_line() == old(self).current_line(),
            final(self).pos() == if old(self).pos() < old(self).source_bytes().len() {
                old(self).pos() + 1
            } else {
                old(self).pos()
            },
    {
        if self.position < self.source.len() {
            self.position = self.position + 1;
        }
    }

    /// The byte after the next one to scan, if there is one.
    pub fn peek(&mut self) -> (r: Option<&u8>)
        requires
            old(self).wf(),
        ensures
            *final(self) == *old(self),
            match r {
                Some(b) => old(self).pos() + 1 < old(self).source_bytes().len() && *b == old(
                    self,
                ).source_bytes()[old(self).pos() + 1],
                None => old(self).pos() + 1 >= old(self).source_bytes().len(),
            },
    {
        if self.position + 1 < self.source.len() {
            Some(&self.source[self.position + 1])
        } else {
            None
        }
    }

    fn digest_run(&mut self, class: ByteClass) -> (r: (usize, usize))
        requires
            old(self).wf(),
        ensures
            final(self).wf(),
            final(self).source_bytes() == old(self).source_bytes(),
            final(self).current_line() == old(self).current_line(),
            r.0 == old(self).pos(),
            r.1 == run_end(old(self).source_bytes(), old(self).pos(), class),
            final(self).pos() == r.1,
            r.0 <= r.1 <= old(self).source_bytes().len(),
    {
        let start = self.position;
        while self.position < self.source.len() && byte_in_class(class, self.source[self.position])
            invariant
                self.wf(),
                self.source@ == old(self).source@,
                self.line == old(self).line,
                start <= self.position,
                run_end(self.source@, start as int, class) == run_end(
                    self.source@,
                    self.position as int,
                    class,
                ),
            decreases self.source@.len() - self.position,
        {
            self.advance();
        }
        (start, self.position)
    }

    fn digest_identifier(&mut self) -> (r: (usize, usize))
        requires
            old(self).wf(),
        ensures
            final(self).wf(),
            final(self).source_bytes() == old(self).source_bytes(),
            final(self).current_line() == old(self).current_line(),
            r.0 == old(self).pos(),
            r.1 == run_end(old(self).source_bytes(), old(self).pos(), ByteClass::Identifier),
            final(self).pos() == r.1,
            r.0 <= r.1 <= old(self).source_bytes().len(),
    {
        self.digest_run(ByteClass::Identifier)
    }

    fn digest_binary_number(&mut self) -> (r: (usize, usize))
        requires
            old(self).wf(),
        ensures
            final(self).wf(),
            final(self).source_bytes() == old(self).source_bytes(),
            final(self).current_line() == old(self).current_line(),
            r.0 == old(self).pos(),
            r.1 == run_end(old(self).source_bytes(), old(self).pos(), ByteClass::Binary),
            final(self).pos() == r.1,
            r.0 <= r.1 <= old(self).source_bytes().len(),
    {
        self.digest_run(ByteClass::Binary)
    }

    fn digest_hex_number(&mut self) -> (r: (usize, usize))
        requires
            old(self).wf(),
        ensures
            final(self).wf(),
            final(self).source_bytes() == old(self).source_bytes(),
            final(self).current_line() == old(self).current_line(),
            r.0 == old(self).pos(),
            r.1 == run_end(old(self).source_bytes(), old(self).pos(), ByteClass::Hex),
            final(self).pos() == r.1,
            r.0 <= r.1 <= old(self).source_bytes().len(),
    {
        self.digest_run(ByteClass::Hex)
    }

    fn digest_decmial_number(&mut self) -> (r: (usize, usize))
        requires
            old(self).wf(),
        ensures
            final(self).wf(),
            final(self).source_bytes() == old(self).source_bytes(),
            final(self).current_line() == old(self).current_line(),
            r.0 == old(self).pos(),
            r.1 == run_end(old(self).source_bytes(), old(self).pos(), ByteClass::Decimal),
            final(self).pos() == r.1,
            r.0 <= r.1 <= old(self).source_bytes().len(),
    {
        self.digest_run(ByteClass::Decimal)
    }

    fn digest_operator(&mut self) -> (r: (TokenType, usize, usize))
        requires
            old(self).wf(),
            old(self).pos() < old(self).source_bytes().len(),
        ensures
            final(self).wf(),
            final(self).source_bytes() == old(self).source_bytes(),
            final(self).current_line() == old(self).current_line(),
            r.0 == operator_type(old(self).source_bytes()[old(self).pos()]),
            r.1 == old(self).pos(),
            r.2 == old(self).pos() + 1,
            final(self).pos() == r.2,
    {
        let start = self.position;
        let b = self.source[self.position];
        let operator = if b == 0x23 {
            TokenType::PoundSign
        } else if b == 0x25 {
            TokenType::Percent
        } else if b == 0x24 {
            TokenType::DollarSign
        } else if b == 0x28 {
            TokenType::OpenParen
        } else if b == 0x29 {
            TokenType::CloseParen
        } else if b == 0x2C {
            TokenType::Comma
        } else if b == 0x2E {
            TokenType::Dot
        } else if b == 0x3A {
            TokenType::Colon
        } else if b == 0x2B {
            TokenType::Plus
        } else if b == 0x2D {
            TokenType::Minus
        } else {
            TokenType::Invalid
        };
        self.advance();
        (operator, start, self.position)
    }

    fn digest_whitespace(&mut self)
        requires
            old(self).wf(),
        ensures
            final(self).wf(),
            final(self).source_bytes() == old(self).source_bytes(),
            (final(self).pos(), final(self).current_line()) == skip_space(
                old(self).source_bytes(),
                old(self).pos(),
                old(self).current_line(),
            ),
    {
        while self.position < self.source.len() && is_space_byte(self.source[self.position])
            invariant
                self.wf(),
                self.source@ == old(self).source@,
                skip_space(self.source@, self.position as int, self.line as int) == skip_space(
                    old(self).source@,
                    old(self).position as int,
                    old(self).line as int,
                ),
            decreases self.source@.len() - self.position,
        {
            let b = self.source[self.position];
            self.advance();
            if b == 0x0A || b == 0x09 || b == 0x0D {
                self.line = self.line + 1;
            }
        }
    }

    fn is_hexadecimal(symbol: u8) -> (r: bool)
        ensures
            r == is_hex_digit(symbol),
    {
        is_digit_byte(symbol) || (0x41 <= symbol && symbol <= 0x46) || (0x61 <= symbol && symbol
            <= 0x66)
    }

    fn is_binary(symbol: u8) -> (r: bool)
        ensures
            r == is_bin_digit(symbol),
    {
        symbol == 0x30 || symbol == 0x31
    }

    /// Scans the next token. At the end of the source it returns an
    /// end-of-file token, as often as it is called.
    pub fn next(&mut self) -> (r: Token<'a>)
        requires
            old(self).wf(),
        ensures
            final(self).wf(),
            final(self).source_bytes() == old(self).source_bytes(),
            next_token(old(self).source_bytes(), old(self).pos(), old(self).current_line(), r),
            final(self).pos() == scan_spec(
                old(self).source_bytes(),
                skip_space(old(self).source_bytes(), old(self).pos(), old(self).current_line()).0,
            ).3,
            final(self).current_line() == skip_space(
                old(self).source_bytes(),
                old(self).pos(),
                old(self).current_line(),
            ).1,
    {
        self.digest_whitespace();
        let line = self.line;
        if self.position == self.source.len() {
            let empty = vstd::slice::slice_subrange(self.source, self.position, self.position);
            assert(self.source@.subrange(self.position as int, self.position as int) =~= Seq::<
                u8,
            >::empty());
            return Token::eof(empty, self.position, line);
        }
        let c = self.source[self.position];
        let ghost src = self.source@;
        let ghost p = self.position as int;
        if is_alpha_byte(c) || c == 0x5F {
            let (start, end) = self.digest_identifier();
            let repr = vstd::slice::slice_subrange(self.source, start, end);
            return Token::new_identifier(repr, start, end, line);
        }
        let next = self.peek();
        let number_kind: u8 = match next {
            Some(n) => {
                if c == 0x23 && (is_digit_byte(*n) || *n == 0x2D) {
                    1
                } else if c == 0x24 && Tokenizer::is_hexadecimal(*n) {
                    2
                } else if c == 0x25 && Tokenizer::is_binary(*n) {
                    3
                } else {
                    0
                }
            },
            None => 0,
        };
        if number_kind == 1 {
            self.advance();
            let (start, end) = self.digest_decmial_number();
            let repr = vstd::slice::slice_subrange(self.source, start, end);
            Token::new_number(repr, start, end, line)
        } else if number_kind == 2 {
            self.advance();
            let (start, end) = self.digest_hex_number();
            let repr = vstd::slice::slice_subrange(self.source, start, end);
            Token::new_hex_number(repr, start, end, line)
        } else if number_kind == 3 {
            self.advance();
            let (start, end) = self.digest_binary_number();
            let repr = vstd::slice::slice_subrange(self.source, start, end);
            Token::new_binary_number(repr, start, end, line)
        } else {
            let (operator, start, end) = self.digest_operator();
            let repr = vstd::slice::slice_subrange(self.source, start, end);
            Token::new_operator(operator, repr, start, end, line)
        }
    }
}

/// `t` is the token that follows position `pos` on line `line` of `src`:
/// its type, span and line are those that scanning from there finds, and
/// its text is the bytes of its span.
pub open spec fn next_token(src: Seq<u8>, pos: int, line: int, t: Token) -> bool {
    let (p, l) = skip_space(src, pos, line);
    let (tt, start, end, _) = scan_spec(src, p);
    &&& t.token_type == tt
    &&& t.start == start
    &&& t.end == end
    &&& t.line == l
    &&& t.repr.spec_bytes() == lexeme(src, start, end)
}

fn byte_in_class(class: ByteClass, b: u8) -> (r: bool)
    ensures
        r == in_class(class, b),
{
    match class {
        ByteClass::Identifier => is_alpha_byte(b) || is_digit_byte(b) || b == 0x5F,
        ByteClass::Decimal => is_digit_byte(b) || b == 0x2D,
        ByteClass::Hex => Tokenizer::is_hexadecimal(b),
        ByteClass::Binary => Tokenizer::is_binary(b),
    }
}

fn is_alpha_byte(b: u8) -> (r: bool)
    ensures
        r == is_alpha(b),
{
    (0x41 <= b && b <= 0x5A) || (0x61 <= b && b <= 0x7A)
}

fn is_space_byte(b: u8) -> (r: bool)
    ensures
        r == is_space(b),
{
    b == 0x20 || b == 0x09 || b == 0x0A || b == 0x0C || b == 0x0D
}

/// Tokenizer position and line after `k` calls of `next` from `pos`, `line`.
pub open spec fn state_after(src: Seq<u8>, pos: int, line: int, k: nat) -> (int, int)
    decreases k,
{
    if k == 0 {
        (pos, line)
    } else {
        let (p, l) = state_after(src, pos, line, (k - 1) as nat);
        let (sp, sl) = skip_space(src, p, l);
        (scan_spec(src, sp).3, sl)
    }
}

/// The scan that the call of `next` numbered `k` (from 0) performs: the
/// start of its token after whitespace, and the line there.
pub open spec fn scan_start(src: Seq<u8>, pos: int, line: int, k: nat) -> (int, int) {
    let (p, l) = state_after(src, pos, line, k);
    skip_space(src, p, l)
}

/// Type of the token that call `k` of `next` returns.
pub open spec fn type_at(src: Seq<u8>, pos: int, line: int, k: nat) -> TokenType {
    scan_spec(src, scan_start(src, pos, line, k).0).0
}

/// Start offset of the token that call `k` of `next` returns.
pub open spec fn start_at(src: Seq<u8>, pos: int, line: int, k: nat) -> int {
    scan_spec(src, scan_start(src, pos, line, k).0).1
}

/// Line of the token that call `k` of `next` returns.
pub open spec fn line_at(src: Seq<u8>, pos: int, line: int, k: nat) -> int {
    scan_start(src, pos, line, k).1
}

/// After one call of `next`, the calls that follow see the tokens that
/// came one later.
pub proof fn lemma_state_after_shift(src: Seq<u8>, pos: int, line: int, k: nat)
    ensures
        state_after(src, state_after(src, pos, line, 1).0, state_after(src, pos, line, 1).1, k)
            == state_after(src, pos, line, k + 1),
    decreases k,
{
    if k > 0 {
        lemma_state_after_shift(src, pos, line, (k - 1) as nat);
    }
}

proof fn lemma_run_end_bounds(src: Seq<u8>, pos: int, class: ByteClass)
    requires
        0 <= pos <= src.len(),
    ensures
        pos <= run_end(src, pos, class) <= src.len(),
    decreases src.len() - pos,
{
    if 0 <= pos < src.len() && in_class(class, src[pos]) {
        lemma_run_end_bounds(src, pos + 1, class);
    }
}

proof fn lemma_skip_space_bounds(src: Seq<u8>, pos: int, line: int)
    requires
        0 <= pos <= src.len(),
    ensures
        pos <= skip_space(src, pos, line).0 <= src.len(),
    decreases src.len() - pos,
{
    if 0 <= pos < src.len() && is_space(src[pos]) {
        lemma_skip_space_bounds(
            src,
            pos + 1,
            if counts_line(src[pos]) {
                line + 1
            } else {
                line
            },
        );
    }
}

/// A call of `next` either moves past at least one byte or reaches the end
/// of the source and returns the end-of-file token.
pub proof fn lemma_scan_progress(src: Seq<u8>, pos: int, line: int)
    requires
        0 <= pos <= src.len(),
    ensures
        ({
            let p = skip_space(src, pos, line).0;
            let (t, _, _, next) = scan_spec(src, p);
            &&& next <= src.len()
            &&& pos <= next
            &&& (next == pos ==> t is EndOfFile && pos == src.len())
            &&& (p >= src.len() ==> t is EndOfFile)
        }),
{
    lemma_skip_space_bounds(src, pos, line);
    let p = skip_space(src, pos, line).0;
    if p < src.len() {
        lemma_run_end_bounds(src, p, ByteClass::Identifier);
        if p + 1 <= src.len() {
            lemma_run_end_bounds(src, p + 1, ByteClass::Decimal);
            lemma_run_end_bounds(src, p + 1, ByteClass::Hex);
            lemma_run_end_bounds(src, p + 1, ByteClass::Binary);
        }
        let c = src[p];
        if is_alpha(c) || c == 0x5F {
            assert(in_class(ByteClass::Identifier, src[p]));
            assert(run_end(src, p, ByteClass::Identifier) == run_end(src, p + 1, ByteClass::Identifier));
            lemma_run_end_bounds(src, p + 1, ByteClass::Identifier);
        } else if c == 0x23 && p + 1 < src.len() && is_decimal_byte(src[p + 1]) {
            assert(in_class(ByteClass::Decimal, src[p + 1]));
            lemma_run_end_bounds(src, p + 2, ByteClass::Decimal);
        } else if c == 0x24 && p + 1 < src.len() && is_hex_digit(src[p + 1]) {
            assert(in_class(ByteClass::Hex, src[p + 1]));
            lemma_run_end_bounds(src, p + 2, ByteClass::Hex);
        } else if c == 0x25 && p + 1 < src.len() && is_bin_digit(src[p + 1]) {
            assert(in_class(ByteClass::Binary, src[p + 1]));
            lemma_run_end_bounds(src, p + 2, ByteClass::Binary);
        }
    }
}

/// A measure of the token stream of `src` left from call `k` of `next` on,
/// counted from the start of the source on line 1: twice the bytes not yet
/// scanned, plus one while that call's token is not the end of the source.
pub open spec fn stream_measure(src: Seq<u8>, k: nat) -> nat {
    let pos = state_after(src, 0, 1, k).0;
    ((if pos <= src.len() {
        (src.len() - pos) * 2
    } else {
        0int
    }) + if type_at(src, 0, 1, k) is EndOfFile {
        0int
    } else {
        1int
    }) as nat
}

proof fn lemma_state_bounds(src: Seq<u8>, k: nat)
    ensures
        0 <= state_after(src, 0, 1, k).0 <= src.len(),
    decreases k,
{
    if k > 0 {
        lemma_state_bounds(src, (k - 1) as nat);
        let (p, l) = state_after(src, 0, 1, (k - 1) as nat);
        lemma_scan_progress(src, p, l);
    }
}

proof fn lemma_measure_step(src: Seq<u8>, k: nat)
    ensures
        stream_measure(src, k + 1) <= stream_measure(src, k),
        !(type_at(src, 0, 1, k) is EndOfFile) ==> stream_measure(src, k + 1) < stream_measure(
            src,
            k,
        ),
{
    lemma_state_bounds(src, k);
    lemma_state_bounds(src, k + 1);
    let (p, l) = state_after(src, 0, 1, k);
    lemma_scan_progress(src, p, l);
    let (q, m) = state_after(src, 0, 1, k + 1);
    lemma_scan_progress(src, q, m);
    lemma_skip_space_bounds(src, q, m);
}

/// Once a call of `next` returns a token other than the end of the source,
/// the stream left after any further calls is strictly smaller.
pub proof fn lemma_measure_steps(src: Seq<u8>, k: nat, n: nat)
    requires
        n >= 1,
        !(type_at(src, 0, 1, k) is EndOfFile),
    ensures
        stream_measure(src, k + n) < stream_measure(src, k),
    decreases n,
{
    lemma_measure_step(src, k);
    if n > 1 {
        lemma_measure_steps(src, k, (n - 1) as nat);
        lemma_measure_step(src, (k + n - 1) as nat);
        assert((k + n - 1) as nat + 1 == k + n);
    }
}

} // verus!
