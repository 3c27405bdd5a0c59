use vstd::prelude::*;
use crate::token::Span;

verus! {

#[derive(Clone, Copy, Debug, PartialEq, Eq, Structural)]
pub enum ErrorKind {
    Lexer,
    Parser,
    UnexpectedEOF,
    Runtime,
    Compiler,
}

/// A failure, with where it happened and a message for the user.
#[derive(Debug)]
pub struct Error {
    pub kind: ErrorKind,
    pub span: Span,
    pub message: String,
}

/// What an error says, with its message as a sequence of characters.
pub struct Failure {
    pub kind: ErrorKind,
    pub span: Span,
    pub message: Seq<char>,
}

impl View for Error {
    type V = Failure;

    open spec fn view(&self) -> Failure {
        Failure { kind: self.kind, span: self.span, message: self.message@ }
    }
}

/// A runtime failure at `span` with the given message.
pub open spec fn runtime_failure(span: Span, message: Seq<char>) -> Failure {
    Failure { kind: ErrorKind::Runtime, span, message }
}

impl Error {
    /// The runtime error at `span` with the given message.
    pub fn runtime(span: &Span, message: String) -> (r: Error)
        ensures
            r@ == runtime_failure(*span, message@),
    {
        Error { kind: ErrorKind::Runtime, span: span.duplicate(), message }
    }

    /// The runtime error at `span` with a fixed message.
    pub fn runtime_str(span: &Span, message: &str) -> (r: Error)
        ensures
            r@ == runtime_failure(*span, message@),
    {
        Error::runtime(span, String::from_str(message))
    }

    /// The message with the prefix that tells a syntax error from a runtime error.
    pub fn describe(&self) -> (r: String)
        ensures
            self.kind == ErrorKind::Runtime ==> r@ == "RuntimeError: "@ + self.message@,
            self.kind != ErrorKind::Runtime ==> r@ == "SyntaxError: "@ + self.message@,
    {
        let prefix = if self.kind == ErrorKind::Runtime {
            String::from_str("RuntimeError: ")
        } else {
            String::from_str("SyntaxError: ")
        };
        prefix.concat(self.message.as_str())
    }
}

} // verus!
