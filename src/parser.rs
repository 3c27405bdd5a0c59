use vstd::prelude::*;
use std::rc::Rc;
use crate::ast::{Ast, BinaryOp};
use crate::error::{Error, ErrorKind};
use crate::number::parse_literal;
use crate::text::join;
use crate::token::{Span, Token, TokenKind};

verus! {

/// The text that names a kind of token in a message.
fn kind_name(k: TokenKind) -> &'static str {
    match k {
        TokenKind::And => "And",
        TokenKind::Assert => "Assert",
        TokenKind::At => "At",
        TokenKind::Bang => "Bang",
        TokenKind::BangEquals => "BangEquals",
        TokenKind::Colon => "Colon",
        TokenKind::Comma => "Comma",
        TokenKind::Def => "Def",
        TokenKind::Dot => "Dot",
        TokenKind::DotDot => "DotDot",
        TokenKind::EOF => "EOF",
        TokenKind::Else => "Else",
        TokenKind::Equals => "Equals",
        TokenKind::EqualsEquals => "EqualsEquals",
        TokenKind::False => "False",
        TokenKind::FatArrow => "FatArrow",
        TokenKind::FloatLiteral => "FloatLiteral",
        TokenKind::For => "For",
        TokenKind::Identifier => "Identifier",
        TokenKind::If => "If",
        TokenKind::In => "In",
        TokenKind::IntegerLiteralBin => "IntegerLiteralBin",
        TokenKind::IntegerLiteralOct => "IntegerLiteralOct",
        TokenKind::IntegerLiteralDec => "IntegerLiteralDec",
        TokenKind::IntegerLiteralHex => "IntegerLiteralHex",
        TokenKind::LeftBrace => "LeftBrace",
        TokenKind::LeftBracket => "LeftBracket",
        TokenKind::LeftParen => "LeftParen",
        TokenKind::LessThan => "LessThan",
        TokenKind::LessEquals => "LessEquals",
        TokenKind::Let => "Let",
        TokenKind::Minus => "Minus",
        TokenKind::Not => "Not",
        TokenKind::GreaterThan => "GreaterThan",
        TokenKind::GreaterEquals => "GreaterEquals",
        TokenKind::Nothing => "Nothing",
        TokenKind::Or => "Or",
        TokenKind::Pipe => "Pipe",
        TokenKind::Plus => "Plus",
        TokenKind::Return => "Return",
        TokenKind::RightBrace => "RightBrace",
        TokenKind::RightBracket => "RightBracket",
        TokenKind::RightParen => "RightParen",
        TokenKind::SemiColon => "SemiColon",
        TokenKind::Slash => "Slash",
        TokenKind::Star => "Star",
        TokenKind::StringLiteral => "StringLiteral",
        TokenKind::True => "True",
        TokenKind::While => "While",
        TokenKind::Continue => "Continue",
        TokenKind::Break => "Break",
    }
}

/// A syntax error at `span`.
fn syntax_error(span: &Span, message: String) -> (r: Error)
    ensures
        r.kind == ErrorKind::Parser,
{
    Error { kind: ErrorKind::Parser, span: span.duplicate(), message }
}

/// An error for input that ended too soon.
fn eof_error(span: &Span, message: &str) -> (r: Error)
    ensures
        r.kind == ErrorKind::UnexpectedEOF,
{
    Error { kind: ErrorKind::UnexpectedEOF, span: span.duplicate(), message: join(String::from_str("Unexpected EOF: "), message) }
}

/// Whether an error is one that the parser gives.
pub open spec fn is_syntax_error(e: Error) -> bool {
    e.kind == ErrorKind::Parser || e.kind == ErrorKind::UnexpectedEOF
}

/// The result of a step of parsing: a node and the position after it, which
/// lies after `p` and within the tokens.
pub open spec fn parsed(r: Result<(Rc<Ast>, usize), Error>, p: usize, len: nat) -> bool {
    match r {
        Ok((_, q)) => p < q < len,
        Err(e) => is_syntax_error(e),
    }
}

/// The node that a single token stands for as an atom: a variable, a string
/// literal, a boolean literal or `nothing`.
pub open spec fn simple_atom(t: Token) -> Option<Ast> {
    match t.kind {
        TokenKind::Identifier => Some(Ast::Variable(t.span, t.text)),
        TokenKind::StringLiteral => Some(Ast::StringLiteral(t.span, t.text)),
        TokenKind::True => Some(Ast::BooleanLiteral(t.span, true)),
        TokenKind::False => Some(Ast::BooleanLiteral(t.span, false)),
        TokenKind::Nothing => Some(Ast::Nothing(t.span)),
        _ => None,
    }
}

/// The kinds of token that an atom can start with.
pub open spec fn starts_atom(k: TokenKind) -> bool {
    k == TokenKind::LeftParen || k == TokenKind::Pipe || k == TokenKind::IntegerLiteralDec
        || k == TokenKind::IntegerLiteralBin || k == TokenKind::IntegerLiteralOct
        || k == TokenKind::IntegerLiteralHex || k == TokenKind::StringLiteral
        || k == TokenKind::Identifier || k == TokenKind::True || k == TokenKind::False
        || k == TokenKind::Nothing
}

/// Builds the syntax tree from a token stream that ends with its `EOF` token.
pub struct Parser {
    pub tokens: Vec<Token>,
    pub current_index: usize,
}

impl Parser {
    /// The tokens are not empty and end with the only place where parsing
    /// stops: an `EOF` token.
    pub open spec fn well_formed(&self) -> bool {
        self.tokens@.len() > 0 && self.tokens@.last().kind == TokenKind::EOF
            && self.current_index < self.tokens@.len()
    }

    pub fn new(tokens: Vec<Token>) -> (r: Parser)
        requires
            tokens@.len() > 0,
            tokens@.last().kind == TokenKind::EOF,
        ensures
            r.well_formed(),
            r.tokens@ == tokens@,
            r.current_index == 0,
    {
        Parser { tokens, current_index: 0 }
    }

    /// Parses the whole token stream as the statements of a program, which
    /// form one block.
    pub fn parse(&mut self) -> (r: Result<Rc<Ast>, Error>)
        requires
            old(self).well_formed(),
        ensures
            final(self).well_formed(),
            final(self).tokens@ == old(self).tokens@,
            match r {
                Ok(ast) => *ast is Block && final(self).kind_at(final(self).current_index as int) == TokenKind::EOF,
                Err(e) => is_syntax_error(e) && final(self).current_index == old(self).current_index,
            },
            old(self).tokens@[old(self).current_index as int].kind == TokenKind::EOF ==> (r matches Ok(
                ast,
            ) && (*ast)->Block_1@.len() == 0),
    {
        let (res, q) = match self.parse_block(true, self.current_index) {
            Ok(x) => x,
            Err(e) => { return Err(e); },
        };
        match self.consume(TokenKind::EOF, q) {
            Ok((_, q2)) => {
                self.current_index = q2;
                Ok(res)
            },
            Err(e) => Err(e),
        }
    }

    pub open spec fn kind_at(&self, p: int) -> TokenKind {
        self.tokens@[p].kind
    }

    fn kind(&self, p: usize) -> (r: TokenKind)
        requires
            p < self.tokens@.len(),
        ensures
            r == self.kind_at(p as int),
    {
        self.tokens[p].kind
    }

    /// The position after the token at `p`; the `EOF` token is never passed.
    fn next(&self, p: usize) -> (r: usize)
        requires
            self.tokens@.len() > 0,
            self.tokens@.last().kind == TokenKind::EOF,
            p < self.tokens@.len(),
        ensures
            r < self.tokens@.len(),
            self.kind_at(p as int) == TokenKind::EOF ==> r == p,
            self.kind_at(p as int) != TokenKind::EOF ==> r == p + 1,
    {
        if self.tokens[p].kind == TokenKind::EOF {
            p
        } else {
            let n = self.tokens.len();
            proof { assert(self.tokens@.last() == self.tokens@[n - 1]); }
            p + 1
        }
    }

    /// The token at `p`, which must be of kind `kind`, and the position after it.
    fn consume(&self, kind: TokenKind, p: usize) -> (r: Result<(&Token, usize), Error>)
        requires
            self.tokens@.len() > 0,
            self.tokens@.last().kind == TokenKind::EOF,
            p < self.tokens@.len(),
        ensures
            match r {
                Ok((t, q)) => self.kind_at(p as int) == kind && t.kind == kind && q < self.tokens@.len()
                    && (kind != TokenKind::EOF ==> q == p + 1) && (kind == TokenKind::EOF ==> q == p),
                Err(e) => self.kind_at(p as int) != kind && is_syntax_error(e),
            },
    {
        let t = &self.tokens[p];
        if t.kind == kind {
            Ok((t, self.next(p)))
        } else if t.kind == TokenKind::EOF {
            Err(eof_error(&t.span, join(String::from_str("Expected token "), kind_name(kind)).as_str()))
        } else {
            let m = join(join(join(String::from_str("Expected token "), kind_name(kind)), ", but got "), kind_name(t.kind));
            Err(syntax_error(&t.span, m))
        }
    }

    /// The position after an optional `;`; a statement also ends where a new
    /// line or the input ends.
    fn consume_line_end(&self, p: usize) -> (r: Result<usize, Error>)
        requires
            self.tokens@.len() > 0,
            self.tokens@.last().kind == TokenKind::EOF,
            p < self.tokens@.len(),
        ensures
            match r {
                Ok(q) => p <= q < self.tokens@.len(),
                Err(e) => is_syntax_error(e),
            },
    {
        let t = &self.tokens[p];
        if t.newline_before {
            return Ok(p);
        }
        match t.kind {
            TokenKind::SemiColon => Ok(self.next(p)),
            TokenKind::EOF => Ok(p),
            _ => {
                let m = join(String::from_str("Expected line end, but got "), kind_name(t.kind));
                Err(syntax_error(&t.span, m))
            },
        }
    }

    /// A block in braces, or (when `global`) the statements up to the end of
    /// the input.
    fn parse_block(&self, global: bool, p: usize) -> (r: Result<(Rc<Ast>, usize), Error>)
        requires
            self.tokens@.len() > 0,
            self.tokens@.last().kind == TokenKind::EOF,
            p < self.tokens@.len(),
        ensures
            match r {
                Ok((ast, q)) => p <= q < self.tokens@.len() && (!global ==> p < q) && *ast is Block
                    && (global && self.kind_at(p as int) == TokenKind::EOF ==> (*ast)->Block_1@.len() == 0 && q == p),
                Err(e) => is_syntax_error(e) && !(global && self.kind_at(p as int) == TokenKind::EOF),
            },
        decreases self.tokens@.len() - p, 41nat,
    {
        let mut span = self.tokens[p].span.duplicate();
        let mut statements: Vec<Rc<Ast>> = Vec::new();
        let mut q = p;
        if !global {
            q = match self.consume(TokenKind::LeftBrace, p) {
                Ok((_, q2)) => q2,
                Err(e) => { return Err(e); },
            };
        }
        loop
            invariant
                self.tokens@.len() > 0,
                self.tokens@.last().kind == TokenKind::EOF,
                p <= q < self.tokens@.len(),
                !global ==> p < q,
                global && self.kind_at(p as int) == TokenKind::EOF ==> q == p && statements@.len() == 0,
            decreases self.tokens@.len() - q,
        {
            let k = self.kind(q);
            if !global && k == TokenKind::RightBrace {
                span = span.extend(&self.tokens[q].span);
                q = self.next(q);
                break;
            }
            if global && k == TokenKind::EOF {
                span = span.extend(&self.tokens[q].span);
                break;
            }
            let (stmt, q2) = match self.parse_statement(q) {
                Ok(x) => x,
                Err(e) => { return Err(e); },
            };
            statements.push(stmt);
            q = q2;
        }
        Ok((Rc::new(Ast::Block(span, statements)), q))
    }

    /// The parameters and body of a function after its name or opening `|`,
    /// up to the closing token `close`.
    fn parse_params_and_body(&self, close: TokenKind, p: usize) -> (r: Result<(Vec<String>, Rc<Ast>, usize), Error>)
        requires
            self.tokens@.len() > 0,
            self.tokens@.last().kind == TokenKind::EOF,
            p < self.tokens@.len(),
            close != TokenKind::EOF,
        ensures
            match r {
                Ok((_, _, q)) => p < q < self.tokens@.len(),
                Err(e) => is_syntax_error(e),
            },
        decreases self.tokens@.len() - p, 3nat,
    {
        let mut args: Vec<String> = Vec::new();
        let mut q = p;
        while self.kind(q) != close
            invariant
                self.tokens@.len() > 0,
                self.tokens@.last().kind == TokenKind::EOF,
                p <= q < self.tokens@.len(),
            decreases self.tokens@.len() - q,
        {
            let (t, q2) = match self.consume(TokenKind::Identifier, q) {
                Ok(x) => x,
                Err(e) => { return Err(e); },
            };
            args.push(t.text.clone());
            q = q2;
            if self.kind(q) == TokenKind::Comma {
                q = self.next(q);
            }
        }
        q = self.next(q);
        if self.kind(q) == TokenKind::FatArrow {
            q = self.next(q);
            let (expr, q2) = match self.parse_expression(q) {
                Ok(x) => x,
                Err(e) => { return Err(e); },
            };
            let q3 = match self.consume_line_end(q2) {
                Ok(q3) => q3,
                Err(e) => { return Err(e); },
            };
            let span = expr.span().duplicate();
            Ok((args, Rc::new(Ast::Return(span, expr)), q3))
        } else {
            match self.parse_block(false, q) {
                Ok((body, q2)) => Ok((args, body, q2)),
                Err(e) => Err(e),
            }
        }
    }

    /// `|params| => expr` or `|params| { ... }`: an anonymous function.
    fn parse_lambda(&self, p: usize) -> (r: Result<(Rc<Ast>, usize), Error>)
        requires
            self.tokens@.len() > 0,
            self.tokens@.last().kind == TokenKind::EOF,
            p < self.tokens@.len(),
        ensures
            parsed(r, p, self.tokens@.len()),
        decreases self.tokens@.len() - p, 4nat,
    {
        let (start, q) = match self.consume(TokenKind::Pipe, p) {
            Ok((t, q)) => (t.span.duplicate(), q),
            Err(e) => { return Err(e); },
        };
        let (args, body, q2) = match self.parse_params_and_body(TokenKind::Pipe, q) {
            Ok(x) => x,
            Err(e) => { return Err(e); },
        };
        let span = start.extend(body.span());
        Ok((Rc::new(Ast::Function { span, name: None, args, body }), q2))
    }

    /// `def name(params) ...`: a named function, and its name.
    fn parse_function(&self, p: usize) -> (r: Result<(Rc<Ast>, String, usize), Error>)
        requires
            self.tokens@.len() > 0,
            self.tokens@.last().kind == TokenKind::EOF,
            p < self.tokens@.len(),
        ensures
            match r {
                Ok((_, _, q)) => p < q < self.tokens@.len(),
                Err(e) => is_syntax_error(e),
            },
        decreases self.tokens@.len() - p, 35nat,
    {
        let (start, q) = match self.consume(TokenKind::Def, p) {
            Ok((t, q)) => (t.span.duplicate(), q),
            Err(e) => { return Err(e); },
        };
        let (name, q) = match self.consume(TokenKind::Identifier, q) {
            Ok((t, q)) => (t.text.clone(), q),
            Err(e) => { return Err(e); },
        };
        let q = match self.consume(TokenKind::LeftParen, q) {
            Ok((_, q)) => q,
            Err(e) => { return Err(e); },
        };
        let (args, body, q) = match self.parse_params_and_body(TokenKind::RightParen, q) {
            Ok(x) => x,
            Err(e) => { return Err(e); },
        };
        let q = match self.consume_line_end(q) {
            Ok(q) => q,
            Err(e) => { return Err(e); },
        };
        let span = start.extend(body.span());
        Ok((Rc::new(Ast::Function { span, name: Some(name.clone()), args, body }), name, q))
    }

    /// An expression followed by the end of its line.
    fn parse_expression_line(&self, p: usize) -> (r: Result<(Rc<Ast>, usize), Error>)
        requires
            self.tokens@.len() > 0,
            self.tokens@.last().kind == TokenKind::EOF,
            p < self.tokens@.len(),
        ensures
            parsed(r, p, self.tokens@.len()),
        decreases self.tokens@.len() - p, 34nat,
    {
        let (expr, q) = match self.parse_expression(p) {
            Ok(x) => x,
            Err(e) => { return Err(e); },
        };
        match self.consume_line_end(q) {
            Ok(q2) => Ok((expr, q2)),
            Err(e) => Err(e),
        }
    }

    fn parse_statement(&self, p: usize) -> (r: Result<(Rc<Ast>, usize), Error>)
        requires
            self.tokens@.len() > 0,
            self.tokens@.last().kind == TokenKind::EOF,
            p < self.tokens@.len(),
        ensures
            parsed(r, p, self.tokens@.len()),
        decreases self.tokens@.len() - p, 40nat,
    {
        let t = &self.tokens[p];
        let span = &t.span;
        match t.kind {
            TokenKind::Let => {
                let q = self.next(p);
                let (name, q) = match self.consume(TokenKind::Identifier, q) {
                    Ok((t, q)) => (t.text.clone(), q),
                    Err(e) => { return Err(e); },
                };
                let q = match self.consume(TokenKind::Equals, q) {
                    Ok((_, q)) => q,
                    Err(e) => { return Err(e); },
                };
                let (expr, q) = match self.parse_expression_line(q) {
                    Ok(x) => x,
                    Err(e) => { return Err(e); },
                };
                let sp = span.extend(expr.span());
                Ok((Rc::new(Ast::VarDeclaration(sp, name, expr)), q))
            },
            TokenKind::If => {
                let q = self.next(p);
                let (cond, q) = match self.parse_expression(q) {
                    Ok(x) => x,
                    Err(e) => { return Err(e); },
                };
                let (body, q) = match self.parse_block(false, q) {
                    Ok(x) => x,
                    Err(e) => { return Err(e); },
                };
                let sp = span.extend(body.span());
                if self.kind(q) == TokenKind::Else {
                    let else_span = self.tokens[q].span.duplicate();
                    let q = self.next(q);
                    let (else_body, q) = if self.kind(q) == TokenKind::If {
                        match self.parse_statement(q) {
                            Ok(x) => x,
                            Err(e) => { return Err(e); },
                        }
                    } else {
                        match self.parse_block(false, q) {
                            Ok(x) => x,
                            Err(e) => { return Err(e); },
                        }
                    };
                    let sp = else_span.extend(else_body.span());
                    Ok((Rc::new(Ast::If(sp, cond, body, Some(else_body))), q))
                } else {
                    Ok((Rc::new(Ast::If(sp, cond, body, None)), q))
                }
            },
            TokenKind::Def => match self.parse_function(p) {
                Ok((f, _, q)) => Ok((f, q)),
                Err(e) => Err(e),
            },
            TokenKind::At => {
                let q = self.next(p);
                let (deco, q) = match self.parse_postfix(q) {
                    Ok(x) => x,
                    Err(e) => { return Err(e); },
                };
                let q = match self.consume_line_end(q) {
                    Ok(q) => q,
                    Err(e) => { return Err(e); },
                };
                let (func, name, q) = match self.parse_function(q) {
                    Ok(x) => x,
                    Err(e) => { return Err(e); },
                };
                let q = match self.consume_line_end(q) {
                    Ok(q) => q,
                    Err(e) => { return Err(e); },
                };
                let sp = span.extend(deco.span());
                let mut args: Vec<Rc<Ast>> = Vec::new();
                args.push(func);
                let target = Rc::new(Ast::Variable(sp.duplicate(), name));
                let call = Rc::new(Ast::Call(sp.duplicate(), deco, args));
                Ok((Rc::new(Ast::Assignment(sp, target, call)), q))
            },
            TokenKind::Continue => {
                let q = self.next(p);
                match self.consume_line_end(q) {
                    Ok(q) => Ok((Rc::new(Ast::Continue(span.duplicate())), q)),
                    Err(e) => Err(e),
                }
            },
            TokenKind::Break => {
                let q = self.next(p);
                match self.consume_line_end(q) {
                    Ok(q) => Ok((Rc::new(Ast::Break(span.duplicate())), q)),
                    Err(e) => Err(e),
                }
            },
            TokenKind::While => {
                let q = self.next(p);
                let (cond, q) = match self.parse_expression(q) {
                    Ok(x) => x,
                    Err(e) => { return Err(e); },
                };
                let (body, q) = match self.parse_block(false, q) {
                    Ok(x) => x,
                    Err(e) => { return Err(e); },
                };
                let sp = span.extend(body.span());
                Ok((Rc::new(Ast::While(sp, cond, body)), q))
            },
            TokenKind::For => {
                let q = self.next(p);
                if self.kind(q) == TokenKind::LeftParen {
                    return Err(syntax_error(&self.tokens[q].span, String::from_str("Only `for name in value` loops are supported")));
                }
                let (name, q) = match self.consume(TokenKind::Identifier, q) {
                    Ok((t, q)) => (t.text.clone(), q),
                    Err(e) => { return Err(e); },
                };
                let q = match self.consume(TokenKind::In, q) {
                    Ok((_, q)) => q,
                    Err(e) => { return Err(e); },
                };
                let (source, q) = match self.parse_expression(q) {
                    Ok(x) => x,
                    Err(e) => { return Err(e); },
                };
                let (body, q) = match self.parse_block(false, q) {
                    Ok(x) => x,
                    Err(e) => { return Err(e); },
                };
                let sp = span.extend(body.span());
                Ok((Rc::new(Ast::For(sp, name, source, body)), q))
            },
            TokenKind::Return => {
                let q = self.next(p);
                let (expr, q) = match self.parse_expression_line(q) {
                    Ok(x) => x,
                    Err(e) => { return Err(e); },
                };
                let sp = span.extend(expr.span());
                Ok((Rc::new(Ast::Return(sp, expr)), q))
            },
            TokenKind::Assert => {
                let q = self.next(p);
                let (cond, q) = match self.parse_expression(q) {
                    Ok(x) => x,
                    Err(e) => { return Err(e); },
                };
                let sp = span.extend(cond.span());
                let mut q = q;
                if self.kind(q) == TokenKind::Comma {
                    q = self.next(q);
                    q = match self.consume(TokenKind::StringLiteral, q) {
                        Ok((_, q)) => q,
                        Err(e) => { return Err(e); },
                    };
                }
                match self.consume_line_end(q) {
                    Ok(q) => Ok((Rc::new(Ast::Assert(sp, cond)), q)),
                    Err(e) => Err(e),
                }
            },
            _ => {
                let expr = self.parse_expression(p);
                match expr {
                    Ok((expr, q)) => match self.consume_line_end(q) {
                        Ok(q) => Ok((expr, q)),
                        Err(e) => Err(e),
                    },
                    Err(e) => Err(e),
                }
            },
        }
    }

    fn parse_expression(&self, p: usize) -> (r: Result<(Rc<Ast>, usize), Error>)
        requires
            self.tokens@.len() > 0,
            self.tokens@.last().kind == TokenKind::EOF,
            p < self.tokens@.len(),
        ensures
            parsed(r, p, self.tokens@.len()),
        decreases self.tokens@.len() - p, 33nat,
    {
        self.parse_assignment(p)
    }

    fn parse_assignment(&self, p: usize) -> (r: Result<(Rc<Ast>, usize), Error>)
        requires
            self.tokens@.len() > 0,
            self.tokens@.last().kind == TokenKind::EOF,
            p < self.tokens@.len(),
        ensures
            parsed(r, p, self.tokens@.len()),
        decreases self.tokens@.len() - p, 32nat,
    {
        let (left, q) = match self.parse_comparison(p) {
            Ok(x) => x,
            Err(e) => { return Err(e); },
        };
        if self.kind(q) == TokenKind::Equals {
            let q = self.next(q);
            let (right, q) = match self.parse_comparison(q) {
                Ok(x) => x,
                Err(e) => { return Err(e); },
            };
            let sp = left.span().extend(right.span());
            Ok((Rc::new(Ast::Assignment(sp, left, right)), q))
        } else {
            Ok((left, q))
        }
    }

    /// The operator that a token stands for at the given level of precedence.
    fn operator_at(&self, level: u8, p: usize) -> (r: Option<BinaryOp>)
        requires
            p < self.tokens@.len(),
        ensures
            r is Some ==> self.kind_at(p as int) != TokenKind::EOF,
    {
        let k = self.kind(p);
        if level == 0 {
            match k {
                TokenKind::EqualsEquals => Some(BinaryOp::Equals),
                TokenKind::BangEquals => Some(BinaryOp::NotEquals),
                TokenKind::LessThan => Some(BinaryOp::LessThan),
                TokenKind::GreaterThan => Some(BinaryOp::GreaterThan),
                TokenKind::LessEquals => Some(BinaryOp::LessEquals),
                TokenKind::GreaterEquals => Some(BinaryOp::GreaterEquals),
                _ => None,
            }
        } else if level == 1 {
            match k {
                TokenKind::Or => Some(BinaryOp::Or),
                _ => None,
            }
        } else if level == 2 {
            match k {
                TokenKind::And => Some(BinaryOp::And),
                _ => None,
            }
        } else if level == 3 {
            match k {
                TokenKind::Plus => Some(BinaryOp::Plus),
                TokenKind::Minus => Some(BinaryOp::Minus),
                _ => None,
            }
        } else {
            match k {
                TokenKind::Star => Some(BinaryOp::Multiply),
                TokenKind::Slash => Some(BinaryOp::Divide),
                _ => None,
            }
        }
    }

    /// A chain of operands joined, from the left, by the operators of one
    /// level of precedence: comparisons (0), `or` (1), `and` (2), `+ -` (3)
    /// and `* /` (4). Each level's operands are of the next level.
    fn parse_binary_level(&self, level: u8, p: usize) -> (r: Result<(Rc<Ast>, usize), Error>)
        requires
            self.tokens@.len() > 0,
            self.tokens@.last().kind == TokenKind::EOF,
            p < self.tokens@.len(),
            level <= 4,
        ensures
            parsed(r, p, self.tokens@.len()),
        decreases self.tokens@.len() - p, (30 - 2 * level) as nat,
    {
        let (mut left, mut q) = match self.parse_operand(level, p) {
            Ok(x) => x,
            Err(e) => { return Err(e); },
        };
        loop
            invariant
                self.tokens@.len() > 0,
                self.tokens@.last().kind == TokenKind::EOF,
                p < q < self.tokens@.len(),
                level <= 4,
            decreases self.tokens@.len() - q,
        {
            let op = match self.operator_at(level, q) {
                Some(op) => op,
                None => { break; },
            };
            let q1 = self.next(q);
            let (right, q2) = match self.parse_operand(level, q1) {
                Ok(x) => x,
                Err(e) => { return Err(e); },
            };
            let sp = left.span().extend(right.span());
            left = Rc::new(Ast::Binary(sp, op, left, right));
            q = q2;
        }
        Ok((left, q))
    }

    /// An operand of the given level of precedence.
    fn parse_operand(&self, level: u8, p: usize) -> (r: Result<(Rc<Ast>, usize), Error>)
        requires
            self.tokens@.len() > 0,
            self.tokens@.last().kind == TokenKind::EOF,
            p < self.tokens@.len(),
            level <= 4,
        ensures
            parsed(r, p, self.tokens@.len()),
        decreases self.tokens@.len() - p, (29 - 2 * level) as nat,
    {
        if level < 4 {
            self.parse_binary_level(level + 1, p)
        } else {
            self.parse_prefix(p)
        }
    }

    fn parse_comparison(&self, p: usize) -> (r: Result<(Rc<Ast>, usize), Error>)
        requires
            self.tokens@.len() > 0,
            self.tokens@.last().kind == TokenKind::EOF,
            p < self.tokens@.len(),
        ensures
            parsed(r, p, self.tokens@.len()),
        decreases self.tokens@.len() - p, 31nat,
    {
        self.parse_binary_level(0, p)
    }

    /// A slice bound, absent when the next token is `:` or `]`.
    fn parse_slice_value(&self, p: usize) -> (r: Result<(Option<Rc<Ast>>, usize), Error>)
        requires
            self.tokens@.len() > 0,
            self.tokens@.last().kind == TokenKind::EOF,
            p < self.tokens@.len(),
        ensures
            match r {
                Ok((None, q)) => q == p,
                Ok((Some(_), q)) => p < q < self.tokens@.len(),
                Err(e) => is_syntax_error(e),
            },
        decreases self.tokens@.len() - p, 34nat,
    {
        match self.kind(p) {
            TokenKind::Colon | TokenKind::RightBracket => Ok((None, p)),
            _ => match self.parse_expression(p) {
                Ok((e, q)) => Ok((Some(e), q)),
                Err(e) => Err(e),
            },
        }
    }

    fn parse_prefix(&self, p: usize) -> (r: Result<(Rc<Ast>, usize), Error>)
        requires
            self.tokens@.len() > 0,
            self.tokens@.last().kind == TokenKind::EOF,
            p < self.tokens@.len(),
        ensures
            parsed(r, p, self.tokens@.len()),
        decreases self.tokens@.len() - p, 7nat,
    {
        if self.kind(p) == TokenKind::Not {
            let start = &self.tokens[p].span;
            let q = self.next(p);
            let (expr, q) = match self.parse_prefix(q) {
                Ok(x) => x,
                Err(e) => { return Err(e); },
            };
            let sp = start.extend(expr.span());
            Ok((Rc::new(Ast::Not(sp, expr)), q))
        } else {
            self.parse_postfix(p)
        }
    }

    /// After `[`: an index, or a slice with up to three bounds.
    fn parse_subscript(&self, val: Rc<Ast>, p: usize) -> (r: Result<(Rc<Ast>, usize), Error>)
        requires
            self.tokens@.len() > 0,
            self.tokens@.last().kind == TokenKind::EOF,
            p < self.tokens@.len(),
        ensures
            match r {
                Ok((_, q)) => p < q < self.tokens@.len(),
                Err(e) => is_syntax_error(e),
            },
        decreases self.tokens@.len() - p, 36nat,
    {
        let mut span = val.span().duplicate();
        let (start, q) = match self.parse_slice_value(p) {
            Ok(x) => x,
            Err(e) => { return Err(e); },
        };
        if self.kind(q) == TokenKind::RightBracket {
            span = span.extend(&self.tokens[q].span);
            match start {
                Some(start) => {
                    let q = self.next(q);
                    return Ok((Rc::new(Ast::Index(span, val, start)), q));
                },
                None => {
                    return Err(syntax_error(&span, String::from_str("Cannot have empty index")));
                },
            }
        }
        let q = match self.consume(TokenKind::Colon, q) {
            Ok((_, q)) => q,
            Err(e) => { return Err(e); },
        };
        let (end, q) = match self.parse_slice_value(q) {
            Ok(x) => x,
            Err(e) => { return Err(e); },
        };
        if self.kind(q) == TokenKind::RightBracket {
            span = span.extend(&self.tokens[q].span);
            let q = self.next(q);
            return Ok((Rc::new(Ast::Slice { span, lhs: val, start, end, step: None }), q));
        }
        let q = match self.consume(TokenKind::Colon, q) {
            Ok((_, q)) => q,
            Err(e) => { return Err(e); },
        };
        let (step, q) = match self.parse_slice_value(q) {
            Ok(x) => x,
            Err(e) => { return Err(e); },
        };
        span = span.extend(&self.tokens[q].span);
        let q = match self.consume(TokenKind::RightBracket, q) {
            Ok((_, q)) => q,
            Err(e) => { return Err(e); },
        };
        Ok((Rc::new(Ast::Slice { span, lhs: val, start, end, step }), q))
    }

    /// After `(`: the arguments of a call, up to and including `)`.
    fn parse_call_args(&self, val: Rc<Ast>, p: usize) -> (r: Result<(Rc<Ast>, usize), Error>)
        requires
            self.tokens@.len() > 0,
            self.tokens@.last().kind == TokenKind::EOF,
            p < self.tokens@.len(),
        ensures
            match r {
                Ok((_, q)) => p < q < self.tokens@.len(),
                Err(e) => is_syntax_error(e),
            },
        decreases self.tokens@.len() - p, 36nat,
    {
        let mut args: Vec<Rc<Ast>> = Vec::new();
        let mut span = val.span().duplicate();
        let mut q = p;
        loop
            invariant
                self.tokens@.len() > 0,
                self.tokens@.last().kind == TokenKind::EOF,
                p <= q < self.tokens@.len(),
            ensures
                p < q < self.tokens@.len(),
            decreases self.tokens@.len() - q,
        {
            if self.kind(q) == TokenKind::RightParen {
                span = span.extend(&self.tokens[q].span);
                q = self.next(q);
                break;
            }
            let (arg, q2) = match self.parse_expression(q) {
                Ok(x) => x,
                Err(e) => { return Err(e); },
            };
            args.push(arg);
            q = q2;
            match self.kind(q) {
                TokenKind::Comma => { q = self.next(q); },
                TokenKind::RightParen => {},
                TokenKind::EOF => {
                    return Err(eof_error(&self.tokens[q].span, "Expected `)` or ',' but got EOF"));
                },
                k => {
                    let m = join(String::from_str("Expected `)` or `,` but got "), kind_name(k));
                    return Err(syntax_error(&self.tokens[q].span, m));
                },
            }
        }
        Ok((Rc::new(Ast::Call(span, val, args)), q))
    }

    fn parse_postfix(&self, p: usize) -> (r: Result<(Rc<Ast>, usize), Error>)
        requires
            self.tokens@.len() > 0,
            self.tokens@.last().kind == TokenKind::EOF,
            p < self.tokens@.len(),
        ensures
            parsed(r, p, self.tokens@.len()),
        decreases self.tokens@.len() - p, 6nat,
    {
        let (mut val, mut q) = match self.parse_atom(p) {
            Ok(x) => x,
            Err(e) => { return Err(e); },
        };
        loop
            invariant
                self.tokens@.len() > 0,
                self.tokens@.last().kind == TokenKind::EOF,
                p < q < self.tokens@.len(),
            decreases self.tokens@.len() - q,
        {
            match self.kind(q) {
                TokenKind::LeftBracket => {
                    let q1 = self.next(q);
                    let (v, q2) = match self.parse_subscript(val, q1) {
                        Ok(x) => x,
                        Err(e) => { return Err(e); },
                    };
                    val = v;
                    q = q2;
                },
                TokenKind::LeftParen => {
                    let q1 = self.next(q);
                    let (v, q2) = match self.parse_call_args(val, q1) {
                        Ok(x) => x,
                        Err(e) => { return Err(e); },
                    };
                    val = v;
                    q = q2;
                },
                TokenKind::DotDot => {
                    let q1 = self.next(q);
                    let (end, q2) = match self.parse_atom(q1) {
                        Ok(x) => x,
                        Err(e) => { return Err(e); },
                    };
                    let sp = val.span().extend(end.span());
                    val = Rc::new(Ast::Range(sp, val, end));
                    q = q2;
                },
                _ => { break; },
            }
        }
        Ok((val, q))
    }

    /// An integer literal in the radix.
    fn parse_integer(&self, radix: u32, p: usize) -> (r: Result<(Rc<Ast>, usize), Error>)
        requires
            self.tokens@.len() > 0,
            self.tokens@.last().kind == TokenKind::EOF,
            p < self.tokens@.len(),
            self.kind_at(p as int) != TokenKind::EOF,
            2 <= radix <= 16,
        ensures
            parsed(r, p, self.tokens@.len()),
            match r {
                Ok((ast, _)) => crate::number::literal_value(self.tokens@[p as int].text@, radix as nat) matches Some(n)
                    && *ast == Ast::IntegerLiteral(self.tokens@[p as int].span, n),
                Err(_) => crate::number::literal_value(self.tokens@[p as int].text@, radix as nat) is None,
            },
    {
        let t = &self.tokens[p];
        let q = self.next(p);
        match parse_literal(&t.text, radix) {
            Some(n) => Ok((Rc::new(Ast::IntegerLiteral(t.span.duplicate(), n)), q)),
            None => {
                let m = join(String::from_str("Invalid integer literal: "), t.text.as_str());
                Err(syntax_error(&t.span, m))
            },
        }
    }

    fn parse_atom(&self, p: usize) -> (r: Result<(Rc<Ast>, usize), Error>)
        requires
            self.tokens@.len() > 0,
            self.tokens@.last().kind == TokenKind::EOF,
            p < self.tokens@.len(),
        ensures
            parsed(r, p, self.tokens@.len()),
            simple_atom(self.tokens@[p as int]) matches Some(a) ==> (r matches Ok((ast, q)) && *ast == a
                && q == p + 1),
            self.kind_at(p as int) == TokenKind::EOF ==> (r matches Err(e) && e.kind == ErrorKind::UnexpectedEOF),
            !starts_atom(self.kind_at(p as int)) && self.kind_at(p as int) != TokenKind::EOF ==> (r matches Err(e)
                && e.kind == ErrorKind::Parser),
        decreases self.tokens@.len() - p, 5nat,
    {
        let t = &self.tokens[p];
        proof {
            let n = self.tokens@.len();
            assert(self.tokens@.last() == self.tokens@[n - 1]);
        }
        match t.kind {
            TokenKind::LeftParen => {
                let q = self.next(p);
                let (expr, q) = match self.parse_expression(q) {
                    Ok(x) => x,
                    Err(e) => { return Err(e); },
                };
                match self.consume(TokenKind::RightParen, q) {
                    Ok((_, q)) => Ok((expr, q)),
                    Err(e) => Err(e),
                }
            },
            TokenKind::LeftBracket => Err(syntax_error(&t.span, String::from_str("List literals are not supported"))),
            TokenKind::Pipe => self.parse_lambda(p),
            TokenKind::IntegerLiteralDec => self.parse_integer(10, p),
            TokenKind::IntegerLiteralBin => self.parse_integer(2, p),
            TokenKind::IntegerLiteralOct => self.parse_integer(8, p),
            TokenKind::IntegerLiteralHex => self.parse_integer(16, p),
            TokenKind::FloatLiteral => Err(syntax_error(&t.span, String::from_str("Floating-point numbers are not supported"))),
            TokenKind::StringLiteral => Ok((Rc::new(Ast::StringLiteral(t.span.duplicate(), t.text.clone())), self.next(p))),
            TokenKind::Identifier => Ok((Rc::new(Ast::Variable(t.span.duplicate(), t.text.clone())), self.next(p))),
            TokenKind::True => Ok((Rc::new(Ast::BooleanLiteral(t.span.duplicate(), true)), self.next(p))),
            TokenKind::False => Ok((Rc::new(Ast::BooleanLiteral(t.span.duplicate(), false)), self.next(p))),
            TokenKind::Nothing => Ok((Rc::new(Ast::Nothing(t.span.duplicate())), self.next(p))),
            TokenKind::EOF => Err(eof_error(&t.span, "Unexpected EOF in parse_atom")),
            k => {
                let m = join(String::from_str("Unexpected token in parse_atom: "), kind_name(k));
                Err(syntax_error(&t.span, m))
            },
        }
    }
}

} // verus!
