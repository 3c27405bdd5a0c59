use std::rc::Rc;
use toylang::ast::{Ast, BinaryOp};
use toylang::error::ErrorKind;
use toylang::interpreter::{Completion, Interpreter};
use toylang::parser::Parser;
use toylang::token::{Location, Span, Token, TokenKind};
use toylang::token::TokenKind::{DotDot, EOF, Equals, EqualsEquals, FatArrow, LeftBrace, LeftParen, LessEquals, Minus, Pipe, RightBrace, RightParen, SemiColon, Star};
use toylang::value::{IteratorValue, Value};

fn loc(line: usize, column: usize) -> Location {
    Location { line, column, filename: "test".to_string() }
}

fn sp() -> Span {
    Span(loc(1, 1), loc(1, 2))
}

fn tok(kind: TokenKind, text: &str) -> Token {
    Token::new(kind, sp(), text.to_string())
}

fn word(text: &str) -> Token {
    Token::from_str(text.to_string(), sp())
}

fn line(mut t: Token) -> Token {
    t.newline_before = true;
    t
}

fn num(text: &str) -> Token {
    tok(TokenKind::IntegerLiteralDec, text)
}

fn run_tokens(tokens: Vec<Token>) -> (Result<Completion, toylang::error::Error>, Vec<String>) {
    let mut parser = Parser::new(tokens);
    let ast = parser.parse().expect("program parses");
    let mut interp = Interpreter::new();
    let r = interp.execute(&ast);
    let out = interp.take_output();
    (r, out)
}

fn int_of(v: &Result<Completion, toylang::error::Error>) -> i64 {
    match v {
        Ok(Completion::Value(Value::Integer(i))) => *i,
        other => panic!("expected an integer, got {:?}", other),
    }
}

fn s(text: &str) -> Value {
    Value::String(text.chars().collect())
}

fn text(v: &Value) -> String {
    match v {
        Value::String(c) => c.iter().collect(),
        other => panic!("expected a string, got {:?}", other),
    }
}

fn lit(i: i64) -> Rc<Ast> {
    Rc::new(Ast::IntegerLiteral(sp(), i))
}

fn var(name: &str) -> Rc<Ast> {
    Rc::new(Ast::Variable(sp(), name.to_string()))
}

fn block(stmts: Vec<Rc<Ast>>) -> Rc<Ast> {
    Rc::new(Ast::Block(sp(), stmts))
}

#[test]
fn integer_division_truncates_like_the_machine() {
    for (a, b) in [(7i64, 2i64), (-7, 2), (7, -2), (-7, -2), (0, 5), (i64::MIN, 2), (i64::MAX, -1)] {
        let r = Value::divide(&Value::Integer(a), &Value::Integer(b), &sp()).unwrap();
        assert!(matches!(r, Value::Integer(q) if q == a / b), "{a} / {b}");
    }
}

#[test]
fn division_by_zero_and_overflow_fail() {
    let e = Value::divide(&Value::Integer(1), &Value::Integer(0), &sp()).unwrap_err();
    assert_eq!(e.kind, ErrorKind::Runtime);
    assert_eq!(e.message, "Division by zero");
    let e = Value::divide(&Value::Integer(i64::MIN), &Value::Integer(-1), &sp()).unwrap_err();
    assert_eq!(e.message, "Integer overflow");
    let e = Value::plus(&Value::Integer(i64::MAX), &Value::Integer(1), &sp()).unwrap_err();
    assert_eq!(e.message, "Integer overflow");
}

#[test]
fn greater_than_is_less_than_swapped() {
    let pairs = [
        (Value::Integer(3), Value::Integer(5)),
        (Value::Integer(5), Value::Integer(3)),
        (Value::Integer(4), Value::Integer(4)),
        (s("abc"), s("abd")),
        (s("b"), s("abc")),
        (s(""), s("a")),
    ];
    for (a, b) in pairs.iter() {
        let g = Value::greater_than(a, b, &sp()).unwrap();
        let l = Value::less_than(b, a, &sp()).unwrap();
        assert!(matches!((g, l), (Value::Boolean(x), Value::Boolean(y)) if x == y));
        let g = Value::greater_equals(a, b, &sp()).unwrap();
        let l = Value::less_equals(b, a, &sp()).unwrap();
        assert!(matches!((g, l), (Value::Boolean(x), Value::Boolean(y)) if x == y));
    }
    let e = Value::greater_than(&Value::Integer(1), &s("a"), &sp()).unwrap_err();
    assert_eq!(e.message, "Invalid types for less than");
}

#[test]
fn string_comparison_is_lexicographic() {
    let r = Value::less_than(&s("apple"), &s("banana"), &sp()).unwrap();
    assert!(matches!(r, Value::Boolean(true)));
    let r = Value::less_than(&s("ab"), &s("a"), &sp()).unwrap();
    assert!(matches!(r, Value::Boolean(false)));
    let r = Value::less_equals(&s("ab"), &s("ab"), &sp()).unwrap();
    assert!(matches!(r, Value::Boolean(true)));
}

#[test]
fn equality_is_total() {
    let r = Value::equals(&Value::Integer(1), &s("1"), &sp()).unwrap();
    assert!(matches!(r, Value::Boolean(false)));
    let r = Value::equals(&s("x"), &s("x"), &sp()).unwrap();
    assert!(matches!(r, Value::Boolean(true)));
    let r = Value::not_equals(&Value::Nothing, &Value::Nothing, &sp()).unwrap();
    assert!(matches!(r, Value::Boolean(true)));
    let r = Value::equals(&Value::Boolean(true), &Value::Boolean(true), &sp()).unwrap();
    assert!(matches!(r, Value::Boolean(true)));
}

#[test]
fn string_arithmetic() {
    assert_eq!(text(&Value::plus(&s("ab"), &s("cd"), &sp()).unwrap()), "abcd");
    assert_eq!(text(&Value::multiply(&s("ab"), &Value::Integer(3), &sp()).unwrap()), "ababab");
    assert_eq!(text(&Value::multiply(&s("ab"), &Value::Integer(0), &sp()).unwrap()), "");
    let e = Value::multiply(&s("ab"), &Value::Integer(-2), &sp()).unwrap_err();
    assert_eq!(e.message, "-2 is not a positive integer.");
    let e = Value::minus(&s("ab"), &s("a"), &sp()).unwrap_err();
    assert_eq!(e.message, "Invalid types for subtraction");
    let e = Value::plus(&s("ab"), &Value::Integer(1), &sp()).unwrap_err();
    assert_eq!(e.message, "Invalid types for addition");
}

#[test]
fn integer_arithmetic() {
    assert!(matches!(Value::plus(&Value::Integer(2), &Value::Integer(3), &sp()).unwrap(), Value::Integer(5)));
    assert!(matches!(Value::minus(&Value::Integer(2), &Value::Integer(3), &sp()).unwrap(), Value::Integer(-1)));
    assert!(matches!(Value::multiply(&Value::Integer(-4), &Value::Integer(3), &sp()).unwrap(), Value::Integer(-12)));
    let e = Value::multiply(&Value::Boolean(true), &Value::Integer(3), &sp()).unwrap_err();
    assert_eq!(e.message, "Invalid types for multiplication");
}

#[test]
fn logic_needs_booleans() {
    assert!(matches!(Value::and(&Value::Boolean(true), &Value::Boolean(false), &sp()).unwrap(), Value::Boolean(false)));
    assert!(matches!(Value::or(&Value::Boolean(true), &Value::Boolean(false), &sp()).unwrap(), Value::Boolean(true)));
    assert!(matches!(Value::not(&Value::Boolean(true), &sp()).unwrap(), Value::Boolean(false)));
    assert_eq!(Value::not(&Value::Integer(1), &sp()).unwrap_err().message, "Invalid type for not");
    assert_eq!(Value::and(&Value::Integer(1), &Value::Boolean(true), &sp()).unwrap_err().message, "Invalid types for and");
    assert_eq!(Value::or(&Value::Integer(1), &Value::Boolean(true), &sp()).unwrap_err().message, "Invalid types for or");
}

#[test]
fn slicing_strings() {
    let r = Value::slice(&s("abc"), Some(&Value::Integer(1)), Some(&Value::Integer(3)), None, &sp()).unwrap();
    assert_eq!(text(&r), "bc");
    let r = Value::slice(&s("abcdef"), Some(&Value::Integer(0)), Some(&Value::Integer(6)), Some(&Value::Integer(2)), &sp()).unwrap();
    assert_eq!(text(&r), "ace");
    let r = Value::slice(&s("abcdef"), None, None, None, &sp()).unwrap();
    assert_eq!(text(&r), "abcdef");
    let r = Value::slice(&s("abcdef"), Some(&Value::Integer(4)), Some(&Value::Integer(2)), Some(&Value::Integer(-1)), &sp()).unwrap();
    assert_eq!(text(&r), "");
    let e = Value::slice(&s("abc"), None, None, Some(&Value::Integer(0)), &sp()).unwrap_err();
    assert_eq!(e.message, "Step cannot be 0");
    let e = Value::slice(&s("abc"), Some(&Value::Integer(0)), Some(&Value::Integer(3)), Some(&Value::Integer(-1)), &sp()).unwrap_err();
    assert_eq!(e.message, "Step must be positive to reach the end");
    let e = Value::slice(&s("abc"), Some(&Value::Integer(1)), Some(&Value::Integer(5)), None, &sp()).unwrap_err();
    assert_eq!(e.message, "Index out of bounds");
    let e = Value::slice(&Value::Integer(3), None, None, None, &sp()).unwrap_err();
    assert_eq!(e.message, "Can only slice strings");
    let e = Value::slice(&s("abc"), Some(&s("a")), None, None, &sp()).unwrap_err();
    assert_eq!(e.message, "Invalid types for slice");
}

#[test]
fn indexing_strings() {
    assert_eq!(text(&Value::index(&s("héllo"), &Value::Integer(1), &sp()).unwrap()), "é");
    let e = Value::index(&s("abc"), &Value::Integer(3), &sp()).unwrap_err();
    assert_eq!(e.message, "Index out of bounds");
    let e = Value::index(&s("abc"), &Value::Integer(-1), &sp()).unwrap_err();
    assert_eq!(e.message, "Index out of bounds");
    let e = Value::index(&Value::Integer(3), &Value::Integer(0), &sp()).unwrap_err();
    assert_eq!(e.message, "Can only index a string with an integer");
}

#[test]
fn ranges_and_iterators() {
    let r = Value::create_range(&Value::Integer(1), &Value::Integer(5), &sp()).unwrap();
    assert!(matches!(r, Value::Range(1, 5)));
    let e = Value::create_range(&Value::Integer(1), &s("5"), &sp()).unwrap_err();
    assert_eq!(e.message, "Must be integers for range");
    let mut it = Value::iterator(&r, &sp()).unwrap();
    let mut got = vec![];
    while let Some(v) = it.next() {
        match v {
            Value::Integer(i) => got.push(i),
            other => panic!("{:?}", other),
        }
    }
    assert_eq!(got, vec![1, 2, 3, 4]);
    let mut it = IteratorValue::for_string(&"ab".chars().collect());
    assert_eq!(text(&it.next().unwrap()), "a");
    assert_eq!(text(&it.next().unwrap()), "b");
    assert!(it.next().is_none());
    let mut it = IteratorValue::for_range(&3, &3);
    assert!(it.next().is_none());
    let e = Value::iterator(&Value::Integer(3), &sp()).unwrap_err();
    assert_eq!(e.message, "Cannot iterate over this type");
}

#[test]
fn repr_and_show() {
    assert_eq!(Value::repr(&Value::Integer(-42)), "-42");
    assert_eq!(Value::repr(&s("hi")), "\"hi\"");
    assert_eq!(Value::show(&s("hi")), "hi");
    assert_eq!(Value::repr(&Value::Boolean(false)), "false");
    assert_eq!(Value::repr(&Value::Range(-1, 10)), "-1..10");
    assert_eq!(Value::repr(&Value::Nothing), "nothing");
}

#[test]
fn scope_assignment_rules() {
    let mut interp = Interpreter::new();
    let root = interp.push_scope(None, false);
    let name = "x".to_string();
    assert!(!interp.assign(root, &name, Value::Integer(1)));
    assert!(interp.lookup(root, &name).is_none());
    interp.declare(root, &name, Value::Integer(1));
    let inner = interp.push_scope(Some(root), false);
    assert!(interp.assign(inner, &name, Value::Integer(7)));
    assert!(matches!(interp.lookup(root, &name), Some(Value::Integer(7))));
    interp.declare(inner, &name, Value::Integer(9));
    assert!(matches!(interp.lookup(inner, &name), Some(Value::Integer(9))));
    assert!(matches!(interp.lookup(root, &name), Some(Value::Integer(7))));
}

#[test]
fn assignment_to_undeclared_variable_fails() {
    let prog = block(vec![Rc::new(Ast::Assignment(sp(), var("y"), lit(3)))]);
    let mut interp = Interpreter::new();
    let e = interp.execute(&prog).unwrap_err();
    assert_eq!(e.message, "Variable y doesn't exist");
    let prog = block(vec![
        Rc::new(Ast::VarDeclaration(sp(), "y".to_string(), lit(1))),
        Rc::new(Ast::Assignment(sp(), var("y"), lit(3))),
        var("y"),
    ]);
    let mut interp = Interpreter::new();
    assert_eq!(int_of(&interp.execute(&prog)), 3);
}

#[test]
fn builtin_names_cannot_be_declared() {
    let prog = block(vec![Rc::new(Ast::VarDeclaration(sp(), "print".to_string(), lit(1)))]);
    let e = Interpreter::new().execute(&prog).unwrap_err();
    assert_eq!(e.message, "`print` is a built-in function, can't be used as a variable");
    let e = Interpreter::new().execute(&block(vec![var("nope")])).unwrap_err();
    assert_eq!(e.message, "Variable nope not found");
}

#[test]
fn recursive_factorial() {
    let tokens = vec![
        word("def"), word("fact"), tok(LeftParen, ""), word("n"), tok(RightParen, ""), tok(LeftBrace, ""),
        line(word("if")), word("n"), tok(LessEquals, ""), num("1"), tok(LeftBrace, ""),
        line(word("return")), num("1"),
        line(tok(RightBrace, "")),
        line(word("return")), word("n"), tok(Star, ""), word("fact"), tok(LeftParen, ""), word("n"), tok(Minus, ""), num("1"), tok(RightParen, ""),
        line(tok(RightBrace, "")),
        line(word("fact")), tok(LeftParen, ""), num("5"), tok(RightParen, ""),
        tok(EOF, ""),
    ];
    let (r, _) = run_tokens(tokens);
    assert_eq!(int_of(&r), 120);
}

#[test]
fn closures_see_bindings_at_call_time() {
    // let x = 1; let f = || => x; x = 2; f()
    let tokens = vec![
        word("let"), word("x"), tok(Equals, ""), num("1"), tok(SemiColon, ""),
        word("let"), word("f"), tok(Equals, ""), tok(Pipe, ""), tok(Pipe, ""), tok(FatArrow, ""), word("x"),
        line(word("x")), tok(Equals, ""), num("2"), tok(SemiColon, ""),
        word("f"), tok(LeftParen, ""), tok(RightParen, ""),
        tok(EOF, ""),
    ];
    let (r, _) = run_tokens(tokens);
    assert_eq!(int_of(&r), 2);
}

#[test]
fn closures_made_in_a_loop_keep_their_iteration() {
    // let f = nothing; for i in 1..4 { if i == 2 { f = || => i } }; f()
    let tokens = vec![
        word("let"), word("f"), tok(Equals, ""), word("nothing"),
        line(word("for")), word("i"), word("in"), num("1"), tok(DotDot, ""), num("4"), tok(LeftBrace, ""),
        line(word("if")), word("i"), tok(EqualsEquals, ""), num("2"), tok(LeftBrace, ""),
        line(word("f")), tok(Equals, ""), tok(Pipe, ""), tok(Pipe, ""), tok(FatArrow, ""), word("i"),
        line(tok(RightBrace, "")),
        line(tok(RightBrace, "")),
        line(word("f")), tok(LeftParen, ""), tok(RightParen, ""),
        tok(EOF, ""),
    ];
    let (r, _) = run_tokens(tokens);
    assert_eq!(int_of(&r), 2);
}

#[test]
fn break_leaves_only_the_inner_loop() {
    // let n = 0; let i = 0; while i < 3 { i = i + 1; while true { break }; n = n + 1 }; n
    let lt = |a: Rc<Ast>, b: Rc<Ast>| Rc::new(Ast::Binary(sp(), BinaryOp::LessThan, a, b));
    let add = |a: Rc<Ast>, b: Rc<Ast>| Rc::new(Ast::Binary(sp(), BinaryOp::Plus, a, b));
    let inner = Rc::new(Ast::While(sp(), Rc::new(Ast::BooleanLiteral(sp(), true)), block(vec![Rc::new(Ast::Break(sp()))])));
    let outer = Rc::new(Ast::While(
        sp(),
        lt(var("i"), lit(3)),
        block(vec![
            Rc::new(Ast::Assignment(sp(), var("i"), add(var("i"), lit(1)))),
            inner,
            Rc::new(Ast::Assignment(sp(), var("n"), add(var("n"), lit(1)))),
        ]),
    ));
    let prog = block(vec![
        Rc::new(Ast::VarDeclaration(sp(), "n".to_string(), lit(0))),
        Rc::new(Ast::VarDeclaration(sp(), "i".to_string(), lit(0))),
        outer,
        var("n"),
    ]);
    assert_eq!(int_of(&Interpreter::new().execute(&prog)), 3);
}

#[test]
fn return_inside_a_loop_leaves_the_function() {
    // def f() { while true { return 5 }; return 9 }; f()
    let body = block(vec![
        Rc::new(Ast::While(sp(), Rc::new(Ast::BooleanLiteral(sp(), true)), block(vec![Rc::new(Ast::Return(sp(), lit(5)))]))),
        Rc::new(Ast::Return(sp(), lit(9))),
    ]);
    let f = Rc::new(Ast::Function { span: sp(), name: Some("f".to_string()), args: vec![], body });
    let prog = block(vec![f, Rc::new(Ast::Call(sp(), var("f"), vec![]))]);
    assert_eq!(int_of(&Interpreter::new().execute(&prog)), 5);
}

#[test]
fn for_over_a_range_is_half_open() {
    let tokens = vec![
        word("for"), word("i"), word("in"), num("1"), tok(DotDot, ""), num("5"), tok(LeftBrace, ""),
        line(word("print")), tok(LeftParen, ""), word("i"), tok(RightParen, ""),
        line(tok(RightBrace, "")),
        tok(EOF, ""),
    ];
    let (r, out) = run_tokens(tokens);
    assert!(matches!(r, Ok(Completion::Value(Value::Nothing))));
    assert_eq!(out, vec!["1", "2", "3", "4"]);
}

#[test]
fn for_over_a_string_gives_characters() {
    let prog = block(vec![Rc::new(Ast::For(
        sp(),
        "c".to_string(),
        Rc::new(Ast::StringLiteral(sp(), "hé".to_string())),
        block(vec![Rc::new(Ast::Call(sp(), var("print"), vec![var("c"), lit(-3)]))]),
    ))]);
    let mut interp = Interpreter::new();
    interp.execute(&prog).unwrap();
    assert_eq!(interp.take_output(), vec!["h -3", "é -3"]);
}

#[test]
fn builtins_len_and_exit() {
    let call = |f: &str, args: Vec<Rc<Ast>>| block(vec![Rc::new(Ast::Call(sp(), var(f), args))]);
    let strlit = |t: &str| Rc::new(Ast::StringLiteral(sp(), t.to_string()));
    assert_eq!(int_of(&Interpreter::new().execute(&call("len", vec![strlit("héllo")]))), 5);
    let e = Interpreter::new().execute(&call("len", vec![lit(1)])).unwrap_err();
    assert_eq!(e.message, "len() does not support this value");
    let e = Interpreter::new().execute(&call("len", vec![])).unwrap_err();
    assert_eq!(e.message, "len() takes exactly one argument");
    assert!(matches!(Interpreter::new().execute(&call("exit", vec![lit(3)])), Ok(Completion::Exit(3))));
    assert!(matches!(Interpreter::new().execute(&call("exit", vec![])), Ok(Completion::Exit(0))));
    let e = Interpreter::new().execute(&call("exit", vec![strlit("x")])).unwrap_err();
    assert_eq!(e.message, "exit() may only take an integer as argument");
}

#[test]
fn calls_check_arity_and_callee() {
    let f = Rc::new(Ast::Function { span: sp(), name: Some("f".to_string()), args: vec!["a".to_string()], body: block(vec![]) });
    let prog = block(vec![f, Rc::new(Ast::Call(sp(), var("f"), vec![lit(1), lit(2)]))]);
    let e = Interpreter::new().execute(&prog).unwrap_err();
    assert_eq!(e.message, "Expected 1 arguments, got 2");
    let prog = block(vec![Rc::new(Ast::Call(sp(), lit(3), vec![]))]);
    let e = Interpreter::new().execute(&prog).unwrap_err();
    assert_eq!(e.message, "Can't call this value");
}

#[test]
fn statement_errors() {
    let e = Interpreter::new().execute(&block(vec![Rc::new(Ast::Return(sp(), lit(1)))])).unwrap_err();
    assert_eq!(e.message, "Return statement outside of function");
    let e = Interpreter::new().execute(&block(vec![Rc::new(Ast::Assert(sp(), Rc::new(Ast::BooleanLiteral(sp(), false))))])).unwrap_err();
    assert_eq!(e.message, "Assertion failed");
    let e = Interpreter::new().execute(&block(vec![Rc::new(Ast::Assert(sp(), lit(1)))])).unwrap_err();
    assert_eq!(e.message, "Assertion condition must be a boolean");
    let e = Interpreter::new().execute(&block(vec![Rc::new(Ast::If(sp(), lit(1), block(vec![]), None))])).unwrap_err();
    assert_eq!(e.message, "If condition must be a boolean");
    let e = Interpreter::new().execute(&block(vec![Rc::new(Ast::While(sp(), lit(1), block(vec![])))])).unwrap_err();
    assert_eq!(e.message, "While condition must be a boolean");
    let e = Interpreter::new().execute(&block(vec![Rc::new(Ast::Break(sp()))])).unwrap_err();
    assert_eq!(e.message, "`break` or `continue` outside of a loop");
    let r = Interpreter::new().execute(&block(vec![Rc::new(Ast::If(sp(), Rc::new(Ast::BooleanLiteral(sp(), false)), block(vec![lit(1)]), None))]));
    assert!(matches!(r, Ok(Completion::Value(Value::Nothing))));
    let e = Interpreter::new().execute(&lit(1)).unwrap_err();
    assert_eq!(e.message, "A program must be a block");
}

#[test]
fn statements_after_a_break_do_not_run() {
    // while true { break; print(1) }
    let prog = block(vec![Rc::new(Ast::While(
        sp(),
        Rc::new(Ast::BooleanLiteral(sp(), true)),
        block(vec![Rc::new(Ast::Break(sp())), Rc::new(Ast::Call(sp(), var("print"), vec![lit(1)]))]),
    ))]);
    let mut interp = Interpreter::new();
    interp.execute(&prog).unwrap();
    assert!(interp.take_output().is_empty());
}

#[test]
fn persistent_scope_between_runs() {
    let mut interp = Interpreter::new();
    let root = interp.push_scope(None, false);
    let first = block(vec![Rc::new(Ast::VarDeclaration(sp(), "a".to_string(), lit(4)))]);
    interp.run_block_without_new_scope(&first, root).unwrap();
    let second = block(vec![Rc::new(Ast::Binary(sp(), BinaryOp::Multiply, var("a"), lit(10)))]);
    assert_eq!(int_of(&interp.run_block_without_new_scope(&second, root)), 40);
}
