use dielectric::lexer::{Token, TokenType, Tokenizer};

fn tok(token_type: TokenType, repr: &str, start: usize, end: usize, line: usize) -> Token<'_> {
    Token { token_type, repr, start, end, line }
}

#[test]
fn test_empty_source() {
    let source = "";
    let mut tokenizer = Tokenizer::new(source);
    let token = tokenizer.next();
    assert_eq!(token, tok(TokenType::EndOfFile, "", 0, 0, 1));
}

#[test]
fn test_discards_whitespace() {
    let whitespace = "   ";
    let mut tokenizer = Tokenizer::new(whitespace);
    let token = tokenizer.next();
    assert_eq!(token, tok(TokenType::EndOfFile, "", 3, 3, 1));
}

#[test]
fn test_start_pos_is_zero() {
    let whitespace = "   ";
    let tokenizer = Tokenizer::new(whitespace);
    assert_eq!(tokenizer.position(), 0);
}

#[test]
fn test_mutate_position_to_the_end_of_the_source() {
    let whitespace = "   ";
    let mut tokenizer = Tokenizer::new(whitespace);
    let token = tokenizer.next();
    assert_eq!(token, tok(TokenType::EndOfFile, "", 3, 3, 1));
    assert_eq!(tokenizer.position(), whitespace.len());
}

#[test]
fn test_generate_identifiers() {
    let source = "move";
    let mut tokenizer = Tokenizer::new(source);
    let token = tokenizer.next();
    assert_eq!(token, tok(TokenType::Move, "move", 0, source.len(), 1));
    assert_eq!(tokenizer.position(), source.len());
}

#[test]
fn test_generate_identifiers_underscore() {
    let source = "_move";
    let mut tokenizer = Tokenizer::new(source);
    let token = tokenizer.next();
    assert_eq!(token, tok(TokenType::Identifier, "_move", 0, source.len(), 1));
    assert_eq!(tokenizer.position(), source.len());
}

#[test]
fn test_identifier_whitespace_mix() {
    let source = "move dest src";
    let mut tokenizer = Tokenizer::new(source);
    let token = tokenizer.next();
    assert_eq!(token, tok(TokenType::Move, "move", 0, "move".len(), 1));
    let token = tokenizer.next();
    assert_eq!(
        token,
        tok(
            TokenType::Identifier,
            "dest",
            "move".len() + " ".len(),
            "move".len() + " ".len() + "dest".len(),
            1
        )
    );
    let token = tokenizer.next();
    assert_eq!(
        token,
        tok(
            TokenType::Identifier,
            "src",
            "move".len() + " ".len() + "dest".len() + " ".len(),
            "move".len() + " ".len() + "dest".len() + " ".len() + "src".len(),
            1
        )
    );
    assert_eq!(tokenizer.position(), source.len());
}

#[test]
fn test_decimal_numbers() {
    let source = "#1337";
    let mut tokenizer = Tokenizer::new(source);
    let token = tokenizer.next();
    assert_eq!(token, tok(TokenType::WordDecimalNumber(1337), "1337", 1, source.len(), 1));
    assert_eq!(tokenizer.position(), source.len());
}

#[test]
fn test_negative_decimal_numbers() {
    let source = "#-1337";
    let mut tokenizer = Tokenizer::new(source);
    let token = tokenizer.next();
    assert_eq!(token, tok(TokenType::WordDecimalNumber(-1337), "-1337", 1, source.len(), 1));
    assert_eq!(tokenizer.position(), source.len());
}

#[test]
fn parse_operators() {
    let source = "#%$(),.:+-";
    let mut tokenizer = Tokenizer::new(source);
    assert_eq!(tokenizer.next(), tok(TokenType::PoundSign, "#", 0, 1, 1));
    assert_eq!(tokenizer.next(), tok(TokenType::Percent, "%", 1, 2, 1));
    assert_eq!(tokenizer.next(), tok(TokenType::DollarSign, "$", 2, 3, 1));
    assert_eq!(tokenizer.next(), tok(TokenType::OpenParen, "(", 3, 4, 1));
    assert_eq!(tokenizer.next(), tok(TokenType::CloseParen, ")", 4, 5, 1));
    assert_eq!(tokenizer.next(), tok(TokenType::Comma, ",", 5, 6, 1));
    assert_eq!(tokenizer.next(), tok(TokenType::Dot, ".", 6, 7, 1));
    assert_eq!(tokenizer.next(), tok(TokenType::Colon, ":", 7, 8, 1));
    assert_eq!(tokenizer.next(), tok(TokenType::Plus, "+", 8, 9, 1));
    assert_eq!(tokenizer.next(), tok(TokenType::Minus, "-", 9, 10, 1));
}

#[test]
fn peek_character() {
    let source = "#-50";
    let mut tokenizer = Tokenizer::new(source);
    assert_eq!(tokenizer.peek(), Some(&b'-'));
    tokenizer.next();
    assert_eq!(tokenizer.peek(), None);
}

#[test]
fn test_hex_numbers() {
    let source = "$65BBCCDD";
    let mut tokenizer = Tokenizer::new(source);
    let token = tokenizer.next();
    assert_eq!(token, tok(TokenType::DwordHexNumber(1706806493), "65BBCCDD", 1, source.len(), 1));
}

#[test]
fn test_binary_numbers() {
    let source = "%10110000";
    let mut tokenizer = Tokenizer::new(source);
    let token = tokenizer.next();
    assert_eq!(token, tok(TokenType::ByteBinaryNumber(176), "10110000", 1, source.len(), 1));
}

#[test]
fn test_move() {
    let source = "move.dw D0,A5";
    let mut tokenizer = Tokenizer::new(source);
    let opcode_token = tokenizer.next();
    let dot_token = tokenizer.next();
    let size_token = tokenizer.next();
    let dest_token = tokenizer.next();
    let comma_token = tokenizer.next();
    let source_token = tokenizer.next();
    assert_eq!(opcode_token, tok(TokenType::Move, "move", 0, 4, 1));
    assert_eq!(dot_token, tok(TokenType::Dot, ".", 4, 5, 1));
    assert_eq!(size_token, tok(TokenType::Dword, "dw", 5, 7, 1));
    assert_eq!(dest_token, tok(TokenType::D0, "D0", 8, 10, 1));
    assert_eq!(comma_token, tok(TokenType::Comma, ",", 10, 11, 1));
    assert_eq!(source_token, tok(TokenType::A5, "A5", 11, 13, 1));
    assert_eq!(tokenizer.next(), tok(TokenType::EndOfFile, "", 13, 13, 1));
}

#[test]
fn test_line_numbers() {
    let source = "hello\nworld";
    let mut tokenizer = Tokenizer::new(source);
    let token = tokenizer.next();
    assert_eq!(token, tok(TokenType::Identifier, "hello", 0, "hello".len(), 1));
    let token = tokenizer.next();
    assert_eq!(
        token,
        tok(
            TokenType::Identifier,
            "world",
            "hello".len() + "\n".len(),
            "hello".len() + "\n".len() + "world".len(),
            2
        )
    )
}

#[test]
fn test_move_immediate_value() {
    let source = "move.dw A0, #123456";
    let mut tokenizer = Tokenizer::new(source);
    assert_eq!(tokenizer.next(), tok(TokenType::Move, "move", 0, 4, 1));
    assert_eq!(tokenizer.next(), tok(TokenType::Dot, ".", 4, 5, 1));
    assert_eq!(tokenizer.next(), tok(TokenType::Dword, "dw", 5, 7, 1));
    assert_eq!(tokenizer.next(), tok(TokenType::A0, "A0", 8, 10, 1));
    assert_eq!(tokenizer.next(), tok(TokenType::Comma, ",", 10, 11, 1));
    assert_eq!(
        tokenizer.next(),
        tok(TokenType::DwordDecimalNumber(123456), "123456", 13, source.len(), 1)
    )
}

#[test]
fn keywords_ignore_case() {
    let mut tokenizer = Tokenizer::new("MOVE Lea nop B w DW d15 A9 d16 a01");
    assert_eq!(tokenizer.next().token_type(), TokenType::Move);
    assert_eq!(tokenizer.next().token_type(), TokenType::Lea);
    assert_eq!(tokenizer.next().token_type(), TokenType::Nop);
    assert_eq!(tokenizer.next().token_type(), TokenType::Byte);
    assert_eq!(tokenizer.next().token_type(), TokenType::Word);
    assert_eq!(tokenizer.next().token_type(), TokenType::Dword);
    assert_eq!(tokenizer.next().token_type(), TokenType::D15);
    assert_eq!(tokenizer.next().token_type(), TokenType::A9);
    assert_eq!(tokenizer.next().token_type(), TokenType::Identifier);
    assert_eq!(tokenizer.next().token_type(), TokenType::Identifier);
    assert_eq!(tokenizer.next().token_type(), TokenType::EndOfFile);
    assert_eq!(tokenizer.next().token_type(), TokenType::EndOfFile);
}

#[test]
fn number_widths_follow_magnitude() {
    let mut tokenizer = Tokenizer::new("#255 #256 #65535 #65536 #200 $FF $100 %1 #-5 #4294967295");
    assert_eq!(tokenizer.next().token_type(), TokenType::ByteDecimalNumber(-1));
    assert_eq!(tokenizer.next().token_type(), TokenType::WordDecimalNumber(256));
    assert_eq!(tokenizer.next().token_type(), TokenType::WordDecimalNumber(-1));
    assert_eq!(tokenizer.next().token_type(), TokenType::DwordDecimalNumber(65536));
    assert_eq!(tokenizer.next().token_type(), TokenType::ByteDecimalNumber(200u8 as i8));
    assert_eq!(tokenizer.next().token_type(), TokenType::ByteHexNumber(0xFF));
    assert_eq!(tokenizer.next().token_type(), TokenType::WordHexNumber(0x100));
    assert_eq!(tokenizer.next().token_type(), TokenType::ByteBinaryNumber(1));
    assert_eq!(tokenizer.next().token_type(), TokenType::ByteDecimalNumber(-5));
    assert_eq!(tokenizer.next().token_type(), TokenType::DwordDecimalNumber(-1));
}

#[test]
fn malformed_literals_and_stray_bytes_are_invalid() {
    let mut tokenizer = Tokenizer::new("#4294967296 #1-2 @ #");
    let t = tokenizer.next();
    assert_eq!(t.token_type(), TokenType::Invalid);
    assert_eq!(t.get_repr(), "4294967296");
    assert_eq!(tokenizer.next().token_type(), TokenType::Invalid);
    let t = tokenizer.next();
    assert_eq!(t, tok(TokenType::Invalid, "@", 17, 18, 1));
    assert_eq!(tokenizer.next().token_type(), TokenType::PoundSign);
    assert_eq!(tokenizer.next().token_type(), TokenType::EndOfFile);
}

#[test]
fn tabs_and_returns_count_lines() {
    let mut tokenizer = Tokenizer::new("a\tb\r\nc");
    assert_eq!(tokenizer.next().get_line(), 1);
    assert_eq!(tokenizer.next().get_line(), 2);
    let c = tokenizer.next();
    assert_eq!(c.get_line(), 4);
    assert_eq!(c.get_position(), 5);
    assert_eq!(tokenizer.line(), 4);
}

#[test]
fn token_predicates() {
    let mut tokenizer = Tokenizer::new("label , move #1 d3");
    let label = tokenizer.next();
    assert!(label.is_identifier() && label.is_keyword() && !label.is_number());
    let comma = tokenizer.next();
    assert!(comma.is_operator() && !comma.is_keyword());
    let mv = tokenizer.next();
    assert!(mv.is_keyword() && !mv.is_identifier());
    let one = tokenizer.next();
    assert!(one.is_number() && !one.is_operator());
    let reg = tokenizer.next();
    assert!(reg.is_keyword());
}
