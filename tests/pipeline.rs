use toylang::builtin;
use toylang::compiler::Compiler;
use toylang::error::{Error, ErrorKind};
use toylang::interpreter::{Completion, Interpreter};
use toylang::lexer::Lexer;
use toylang::parser::Parser;
use toylang::token::{Location, Span, TokenKind};
use toylang::value::Value;

fn sp() -> Span {
    Span(Location { line: 1, column: 1, filename: "p".to_string() }, Location { line: 1, column: 1, filename: "p".to_string() })
}

fn parse_source(src: &str) -> Result<std::rc::Rc<toylang::ast::Ast>, Error> {
    let tokens = Lexer::new(src.to_string(), "p".to_string()).lex()?;
    Parser::new(tokens).parse()
}

fn run_source(src: &str) -> (Result<Completion, Error>, Vec<String>) {
    let ast = parse_source(src).expect("source parses");
    let mut interp = Interpreter::new();
    let r = interp.execute(&ast);
    let out = interp.take_output();
    (r, out)
}

fn value_int(r: &Result<Completion, Error>) -> i64 {
    match r {
        Ok(Completion::Value(Value::Integer(i))) => *i,
        other => panic!("expected an integer, got {:?}", other),
    }
}

#[test]
fn lexer_kinds_and_positions() {
    let tokens = Lexer::new("let x = 0x1F..10 # note\nprint(\"a\\nb\")".to_string(), "p".to_string()).lex().unwrap();
    let kinds: Vec<TokenKind> = tokens.iter().map(|t| t.kind).collect();
    assert_eq!(
        kinds,
        vec![
            TokenKind::Let,
            TokenKind::Identifier,
            TokenKind::Equals,
            TokenKind::IntegerLiteralHex,
            TokenKind::DotDot,
            TokenKind::IntegerLiteralDec,
            TokenKind::Identifier,
            TokenKind::LeftParen,
            TokenKind::StringLiteral,
            TokenKind::RightParen,
            TokenKind::EOF,
        ]
    );
    assert_eq!(tokens[3].text, "1F");
    assert_eq!(tokens[8].text, "a\nb");
    assert!(tokens[6].newline_before);
    assert!(!tokens[1].newline_before);
    assert_eq!((tokens[6].span.0.line, tokens[6].span.0.column), (2, 1));
    assert_eq!((tokens[1].span.0.line, tokens[1].span.0.column), (1, 5));
}

#[test]
fn lexer_operators_and_floats() {
    let tokens = Lexer::new("a <= b >= c != d == e => 1.5 @ |".to_string(), "p".to_string()).lex().unwrap();
    let kinds: Vec<TokenKind> = tokens.iter().map(|t| t.kind).collect();
    assert_eq!(
        kinds,
        vec![
            TokenKind::Identifier,
            TokenKind::LessEquals,
            TokenKind::Identifier,
            TokenKind::GreaterEquals,
            TokenKind::Identifier,
            TokenKind::BangEquals,
            TokenKind::Identifier,
            TokenKind::EqualsEquals,
            TokenKind::Identifier,
            TokenKind::FatArrow,
            TokenKind::FloatLiteral,
            TokenKind::At,
            TokenKind::Pipe,
            TokenKind::EOF,
        ]
    );
}

#[test]
fn lexer_errors() {
    let e = Lexer::new("let s = \"open".to_string(), "p".to_string()).lex().unwrap_err();
    assert_eq!(e.kind, ErrorKind::Lexer);
    assert_eq!(e.message, "Unterminated string literal");
    let e = Lexer::new("a $ b".to_string(), "p".to_string()).lex().unwrap_err();
    assert_eq!(e.message, "Unexpected character: $");
    let tokens = Lexer::new(String::new(), "p".to_string()).lex().unwrap();
    assert_eq!(tokens.len(), 1);
    assert_eq!(tokens[0].kind, TokenKind::EOF);
}

#[test]
fn factorial_from_source() {
    let src = "def fact(n) {\n  if n <= 1 {\n    return 1\n  }\n  return n * fact(n - 1)\n}\nfact(5)\n";
    let (r, _) = run_source(src);
    assert_eq!(value_int(&r), 120);
}

#[test]
fn closure_in_loop_from_source() {
    let src = "let fs = nothing\nfor i in 0..3 {\n  let j = i * 10\n  if i == 1 {\n    fs = || => j\n  }\n}\nfs()\n";
    let (r, _) = run_source(src);
    assert_eq!(value_int(&r), 10);
}

#[test]
fn slicing_from_source() {
    let src = "print(\"abc\"[1:3], \"abcdef\"[0:6:2], \"abc\"[1])\n";
    let (r, out) = run_source(src);
    assert!(matches!(r, Ok(Completion::Value(Value::Nothing))));
    assert_eq!(out, vec!["bc ace b"]);
    let (r, _) = run_source("\"abc\"[0:2:0]\n");
    assert_eq!(r.unwrap_err().message, "Step cannot be 0");
}

#[test]
fn nested_loops_from_source() {
    let src = "let count = 0\nfor i in 1..5 {\n  let k = 0\n  while true {\n    k = k + 1\n    if k == 2 {\n      break\n    }\n  }\n  count = count + k\n}\ncount\n";
    let (r, _) = run_source(src);
    assert_eq!(value_int(&r), 8);
}

#[test]
fn continue_skips_the_rest_of_a_round() {
    let src = "let s = 0\nfor i in 0..6 {\n  if i / 2 * 2 == i {\n    continue\n  }\n  s = s + i\n}\ns\n";
    let (r, _) = run_source(src);
    assert_eq!(value_int(&r), 9);
}

#[test]
fn exit_from_source() {
    let (r, out) = run_source("print(1)\nexit(4)\nprint(2)\n");
    assert!(matches!(r, Ok(Completion::Exit(4))));
    assert_eq!(out, vec!["1"]);
}

#[test]
fn builtin_functions_directly() {
    let args = vec![Value::Integer(-7), Value::String("x y".chars().collect()), Value::Boolean(true), Value::Nothing, Value::Range(0, 3)];
    assert_eq!(builtin::print(&sp(), &args), "-7 x y true nothing 0..3");
    assert_eq!(builtin::print(&sp(), &vec![]), "");
    assert!(matches!(builtin::len(&sp(), &vec![Value::String("abc".chars().collect())]), Ok(Value::Integer(3))));
    assert_eq!(builtin::len(&sp(), &vec![]).unwrap_err().message, "len() takes exactly one argument");
    assert_eq!(builtin::exit(&sp(), &vec![Value::Integer(9), Value::Integer(1)]).unwrap(), 9);
    assert_eq!(builtin::exit(&sp(), &vec![]).unwrap(), 0);
    assert_eq!(builtin::exit(&sp(), &vec![Value::Nothing]).unwrap_err().message, "exit() may only take an integer as argument");
}

#[test]
fn compiler_translates_supported_programs() {
    let ast = parse_source("let x = 1 + 2\nprint(x)\n").unwrap();
    let code = Compiler::new().compile(&ast).unwrap();
    assert!(code.starts_with("#include \"runtime/value.h\"\n\nint main() {\n"));
    assert!(code.ends_with("}\n"));
    assert!(code.contains("Ref<Value> x = Value::from_int(1)->add(Value::from_int(2), \"p:1:9\")"));
    assert!(code.contains("({ vector<Ref<Value>> __0;\n  __0.push_back(x);\nprint(move(__0), \"p:2:1\"); })"));
}

#[test]
fn compiler_functions_and_loops() {
    let ast = parse_source("def f(a, b) {\n  print(a)\n}\nfor c in \"hi\" {\n  print(c)\n}\n").unwrap();
    let code = Compiler::new().compile(&ast).unwrap();
    assert!(code.contains("Ref<Value> f = ({ std::function<Ref<Value>(vector<Ref<Value>>, const char *)> *__0 = new"));
    assert!(code.contains("([&](Ref<Value> a, Ref<Value> b) -> Ref<Value>"));
    assert!(code.contains("Value::from_func(\"f\", __0); })"));
    assert!(code.contains("while (__2->as_iter->has_next()) {\n  Ref<Value> c = __2->as_iter->next();\n"));
}

#[test]
fn compiler_rejects_unsupported_nodes() {
    let ast = parse_source("let b = true\n").unwrap();
    let e = Compiler::new().compile(&ast).unwrap_err();
    assert_eq!(e.kind, ErrorKind::Compiler);
    assert_eq!(e.message, "Not implemented yet");
    let ast = parse_source("len(\"a\")\n").unwrap();
    assert_eq!(Compiler::new().compile(&ast).unwrap_err().message, "Unknown builtin function");
    let ast = parse_source("1 < 2\n").unwrap();
    assert!(Compiler::new().compile(&ast).is_err());
}
