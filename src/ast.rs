use vstd::prelude::*;
use std::rc::Rc;
use crate::token::Span;

verus! {

/// The binary operators of the language.
#[derive(Clone, Copy, Debug, PartialEq, Eq, Structural)]
pub enum BinaryOp {
    Plus,
    Minus,
    Multiply,
    Divide,
    And,
    Or,
    Equals,
    NotEquals,
    LessThan,
    GreaterThan,
    LessEquals,
    GreaterEquals,
}

/// The syntax tree that the parser builds and the interpreter walks.
#[derive(Debug)]
pub enum Ast {
    BooleanLiteral(Span, bool),
    IntegerLiteral(Span, i64),
    StringLiteral(Span, String),
    Nothing(Span),
    Binary(Span, BinaryOp, Rc<Ast>, Rc<Ast>),
    Not(Span, Rc<Ast>),
    Call(Span, Rc<Ast>, Vec<Rc<Ast>>),
    Function { span: Span, name: Option<String>, args: Vec<String>, body: Rc<Ast> },
    Slice {
        span: Span,
        lhs: Rc<Ast>,
        start: Option<Rc<Ast>>,
        end: Option<Rc<Ast>>,
        step: Option<Rc<Ast>>,
    },
    Block(Span, Vec<Rc<Ast>>),
    Variable(Span, String),
    Return(Span, Rc<Ast>),
    Assignment(Span, Rc<Ast>, Rc<Ast>),
    VarDeclaration(Span, String, Rc<Ast>),
    Assert(Span, Rc<Ast>),
    If(Span, Rc<Ast>, Rc<Ast>, Option<Rc<Ast>>),
    While(Span, Rc<Ast>, Rc<Ast>),
    For(Span, String, Rc<Ast>, Rc<Ast>),
    Range(Span, Rc<Ast>, Rc<Ast>),
    Break(Span),
    Continue(Span),
    Index(Span, Rc<Ast>, Rc<Ast>),
}

impl Ast {
    /// The span of source text that this node covers.
    pub open spec fn span_of(&self) -> Span {
        match self {
            Ast::BooleanLiteral(s, _) => *s,
            Ast::IntegerLiteral(s, _) => *s,
            Ast::StringLiteral(s, _) => *s,
            Ast::Nothing(s) => *s,
            Ast::Binary(s, _, _, _) => *s,
            Ast::Not(s, _) => *s,
            Ast::Call(s, _, _) => *s,
            Ast::Function { span, .. } => *span,
            Ast::Slice { span, .. } => *span,
            Ast::Block(s, _) => *s,
            Ast::Variable(s, _) => *s,
            Ast::Return(s, _) => *s,
            Ast::Assignment(s, _, _) => *s,
            Ast::VarDeclaration(s, _, _) => *s,
            Ast::Assert(s, _) => *s,
            Ast::If(s, _, _, _) => *s,
            Ast::While(s, _, _) => *s,
            Ast::For(s, _, _, _) => *s,
            Ast::Range(s, _, _) => *s,
            Ast::Break(s) => *s,
            Ast::Continue(s) => *s,
            Ast::Index(s, _, _) => *s,
        }
    }

    pub fn span(&self) -> (r: &Span)
        ensures
            *r == self.span_of(),
    {
        match self {
            Ast::BooleanLiteral(s, _) => s,
            Ast::IntegerLiteral(s, _) => s,
            Ast::StringLiteral(s, _) => s,
            Ast::Nothing(s) => s,
            Ast::Binary(s, _, _, _) => s,
            Ast::Not(s, _) => s,
            Ast::Call(s, _, _) => s,
            Ast::Function { span, .. } => span,
            Ast::Slice { span, .. } => span,
            Ast::Block(s, _) => s,
            Ast::Variable(s, _) => s,
            Ast::Return(s, _) => s,
            Ast::Assignment(s, _, _) => s,
            Ast::VarDeclaration(s, _, _) => s,
            Ast::Assert(s, _) => s,
            Ast::If(s, _, _, _) => s,
            Ast::While(s, _, _) => s,
            Ast::For(s, _, _, _) => s,
            Ast::Range(s, _, _) => s,
            Ast::Break(s) => s,
            Ast::Continue(s) => s,
            Ast::Index(s, _, _) => s,
        }
    }
}

} // verus!
