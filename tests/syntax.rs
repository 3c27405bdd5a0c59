use toylang::ast::{Ast, BinaryOp};
use toylang::error::{Error, ErrorKind};
use toylang::parser::Parser;
use toylang::token::{Location, Span, Token, TokenKind};

fn sp() -> Span {
    Span(Location { line: 1, column: 1, filename: "f".to_string() }, Location { line: 1, column: 4, filename: "f".to_string() })
}

fn tok(kind: TokenKind, text: &str) -> Token {
    Token::new(kind, sp(), text.to_string())
}

fn parse(tokens: Vec<Token>) -> Result<std::rc::Rc<Ast>, Error> {
    Parser::new(tokens).parse()
}

#[test]
fn keywords_and_identifiers() {
    for (w, k) in [
        ("and", TokenKind::And),
        ("assert", TokenKind::Assert),
        ("def", TokenKind::Def),
        ("else", TokenKind::Else),
        ("false", TokenKind::False),
        ("if", TokenKind::If),
        ("let", TokenKind::Let),
        ("not", TokenKind::Not),
        ("nothing", TokenKind::Nothing),
        ("or", TokenKind::Or),
        ("return", TokenKind::Return),
        ("true", TokenKind::True),
        ("while", TokenKind::While),
        ("continue", TokenKind::Continue),
        ("break", TokenKind::Break),
        ("for", TokenKind::For),
        ("in", TokenKind::In),
        ("iff", TokenKind::Identifier),
        ("x", TokenKind::Identifier),
    ] {
        let t = Token::from_str(w.to_string(), sp());
        assert_eq!(t.kind, k, "{w}");
        assert_eq!(t.text, w);
        assert!(!t.newline_before);
    }
}

#[test]
fn span_extend_joins_ends() {
    let a = Span(Location { line: 1, column: 2, filename: "a".to_string() }, Location { line: 1, column: 5, filename: "a".to_string() });
    let b = Span(Location { line: 3, column: 1, filename: "a".to_string() }, Location { line: 3, column: 9, filename: "a".to_string() });
    let c = a.extend(&b);
    assert_eq!((c.0.line, c.0.column, c.1.line, c.1.column), (1, 2, 3, 9));
}

#[test]
fn empty_program_is_an_empty_block() {
    let ast = parse(vec![tok(TokenKind::EOF, "")]).unwrap();
    assert!(matches!(&*ast, Ast::Block(_, stmts) if stmts.is_empty()));
}

#[test]
fn integer_literals_in_each_radix() {
    for (kind, text, value) in [
        (TokenKind::IntegerLiteralDec, "120", 120i64),
        (TokenKind::IntegerLiteralBin, "101", 5),
        (TokenKind::IntegerLiteralOct, "17", 15),
        (TokenKind::IntegerLiteralHex, "fF", 255),
        (TokenKind::IntegerLiteralDec, "9223372036854775807", i64::MAX),
    ] {
        let ast = parse(vec![tok(kind, text), tok(TokenKind::EOF, "")]).unwrap();
        match &*ast {
            Ast::Block(_, stmts) => assert!(matches!(&*stmts[0], Ast::IntegerLiteral(_, v) if *v == value)),
            other => panic!("{:?}", other),
        }
    }
    let e = parse(vec![tok(TokenKind::IntegerLiteralDec, "9223372036854775808"), tok(TokenKind::EOF, "")]).unwrap_err();
    assert_eq!(e.kind, ErrorKind::Parser);
    let e = parse(vec![tok(TokenKind::IntegerLiteralBin, "102"), tok(TokenKind::EOF, "")]).unwrap_err();
    assert_eq!(e.message, "Invalid integer literal: 102");
}

#[test]
fn precedence_of_operators() {
    // 1 + 2 * 3
    let ast = parse(vec![
        tok(TokenKind::IntegerLiteralDec, "1"),
        tok(TokenKind::Plus, ""),
        tok(TokenKind::IntegerLiteralDec, "2"),
        tok(TokenKind::Star, ""),
        tok(TokenKind::IntegerLiteralDec, "3"),
        tok(TokenKind::EOF, ""),
    ])
    .unwrap();
    match &*ast {
        Ast::Block(_, stmts) => match &*stmts[0] {
            Ast::Binary(_, BinaryOp::Plus, _, r) => assert!(matches!(&**r, Ast::Binary(_, BinaryOp::Multiply, _, _))),
            other => panic!("{:?}", other),
        },
        other => panic!("{:?}", other),
    }
}

#[test]
fn slices_and_indexes() {
    // s[1:3:2] ; s[0]
    let ast = parse(vec![
        tok(TokenKind::Identifier, "s"),
        tok(TokenKind::LeftBracket, ""),
        tok(TokenKind::IntegerLiteralDec, "1"),
        tok(TokenKind::Colon, ""),
        tok(TokenKind::IntegerLiteralDec, "3"),
        tok(TokenKind::Colon, ""),
        tok(TokenKind::IntegerLiteralDec, "2"),
        tok(TokenKind::RightBracket, ""),
        tok(TokenKind::SemiColon, ""),
        tok(TokenKind::Identifier, "s"),
        tok(TokenKind::LeftBracket, ""),
        tok(TokenKind::IntegerLiteralDec, "0"),
        tok(TokenKind::RightBracket, ""),
        tok(TokenKind::EOF, ""),
    ])
    .unwrap();
    match &*ast {
        Ast::Block(_, stmts) => {
            assert!(matches!(&*stmts[0], Ast::Slice { start: Some(_), end: Some(_), step: Some(_), .. }));
            assert!(matches!(&*stmts[1], Ast::Index(..)));
        },
        other => panic!("{:?}", other),
    }
    let e = parse(vec![tok(TokenKind::Identifier, "s"), tok(TokenKind::LeftBracket, ""), tok(TokenKind::RightBracket, ""), tok(TokenKind::EOF, "")]).unwrap_err();
    assert_eq!(e.message, "Cannot have empty index");
}

#[test]
fn errors_at_end_of_input() {
    let e = parse(vec![tok(TokenKind::Let, ""), tok(TokenKind::EOF, "")]).unwrap_err();
    assert_eq!(e.kind, ErrorKind::UnexpectedEOF);
    assert_eq!(e.message, "Unexpected EOF: Expected token Identifier");
    let e = parse(vec![tok(TokenKind::LeftParen, ""), tok(TokenKind::IntegerLiteralDec, "1"), tok(TokenKind::EOF, "")]).unwrap_err();
    assert_eq!(e.kind, ErrorKind::UnexpectedEOF);
}

#[test]
fn syntax_errors() {
    let e = parse(vec![tok(TokenKind::IntegerLiteralDec, "1"), tok(TokenKind::IntegerLiteralDec, "2"), tok(TokenKind::EOF, "")]).unwrap_err();
    assert_eq!(e.kind, ErrorKind::Parser);
    assert_eq!(e.message, "Expected line end, but got IntegerLiteralDec");
    let e = parse(vec![tok(TokenKind::RightBrace, ""), tok(TokenKind::EOF, "")]).unwrap_err();
    assert_eq!(e.message, "Unexpected token in parse_atom: RightBrace");
    let e = parse(vec![tok(TokenKind::FloatLiteral, "1.5"), tok(TokenKind::EOF, "")]).unwrap_err();
    assert_eq!(e.kind, ErrorKind::Parser);
}

#[test]
fn decorator_becomes_assignment_of_call() {
    // @deco \n def f() => 1
    let mut def = Token::from_str("def".to_string(), sp());
    def.newline_before = true;
    let ast = parse(vec![
        tok(TokenKind::At, ""),
        tok(TokenKind::Identifier, "deco"),
        def,
        tok(TokenKind::Identifier, "f"),
        tok(TokenKind::LeftParen, ""),
        tok(TokenKind::RightParen, ""),
        tok(TokenKind::FatArrow, ""),
        tok(TokenKind::IntegerLiteralDec, "1"),
        tok(TokenKind::EOF, ""),
    ])
    .unwrap();
    match &*ast {
        Ast::Block(_, stmts) => match &*stmts[0] {
            Ast::Assignment(_, target, call) => {
                assert!(matches!(&**target, Ast::Variable(_, n) if n == "f"));
                assert!(matches!(&**call, Ast::Call(_, _, args) if args.len() == 1));
            },
            other => panic!("{:?}", other),
        },
        other => panic!("{:?}", other),
    }
}

#[test]
fn error_description_prefix() {
    let e = parse(vec![tok(TokenKind::RightBrace, ""), tok(TokenKind::EOF, "")]).unwrap_err();
    assert_eq!(e.describe(), "SyntaxError: Unexpected token in parse_atom: RightBrace");
    let r = Error::runtime_str(&sp(), "boom");
    assert_eq!(r.describe(), "RuntimeError: boom");
}
