use vstd::prelude::*;
use crate::text::same_text;

verus! {

/// A position in a source file.
#[derive(Clone, Debug)]
pub struct Location {
    pub line: usize,
    pub column: usize,
    pub filename: String,
}

impl Location {
    /// An exact copy of this location.
    pub fn duplicate(&self) -> (r: Location)
        ensures
            r == *self,
    {
        Location { line: self.line, column: self.column, filename: self.filename.clone() }
    }
}

/// The stretch of source text from the first location to the second.
#[derive(Clone, Debug)]
pub struct Span(pub Location, pub Location);

impl Span {
    /// The span that starts where `self` starts and ends where `other` ends.
    pub fn extend(&self, other: &Span) -> (r: Span)
        ensures
            r.0 == self.0,
            r.1 == other.1,
    {
        Span(self.0.duplicate(), other.1.duplicate())
    }

    /// An exact copy of this span.
    pub fn duplicate(&self) -> (r: Span)
        ensures
            r == *self,
    {
        Span(self.0.duplicate(), self.1.duplicate())
    }
}

#[derive(Clone, Copy, Debug, PartialEq, Eq, Structural)]
pub enum TokenKind {
    And,
    Assert,
    At,
    Bang,
    BangEquals,
    Colon,
    Comma,
    Def,
    Dot,
    DotDot,
    EOF,
    Else,
    Equals,
    EqualsEquals,
    False,
    FatArrow,
    FloatLiteral,
    For,
    Identifier,
    If,
    In,
    IntegerLiteralBin,
    IntegerLiteralOct,
    IntegerLiteralDec,
    IntegerLiteralHex,
    LeftBrace,
    LeftBracket,
    LeftParen,
    LessThan,
    LessEquals,
    Let,
    Minus,
    Not,
    GreaterThan,
    GreaterEquals,
    Nothing,
    Or,
    Pipe,
    Plus,
    Return,
    RightBrace,
    RightBracket,
    RightParen,
    SemiColon,
    Slash,
    Star,
    StringLiteral,
    True,
    While,
    Continue,
    Break,
}

/// The kind of token that a word of source text stands for: a keyword's own
/// kind, or `Identifier` for any other word.
pub open spec fn word_kind(w: Seq<char>) -> TokenKind {
    if w == "and"@ {
        TokenKind::And
    } else if w == "assert"@ {
        TokenKind::Assert
    } else if w == "def"@ {
        TokenKind::Def
    } else if w == "else"@ {
        TokenKind::Else
    } else if w == "false"@ {
        TokenKind::False
    } else if w == "if"@ {
        TokenKind::If
    } else if w == "let"@ {
        TokenKind::Let
    } else if w == "not"@ {
        TokenKind::Not
    } else if w == "nothing"@ {
        TokenKind::Nothing
    } else if w == "or"@ {
        TokenKind::Or
    } else if w == "return"@ {
        TokenKind::Return
    } else if w == "true"@ {
        TokenKind::True
    } else if w == "while"@ {
        TokenKind::While
    } else if w == "continue"@ {
        TokenKind::Continue
    } else if w == "break"@ {
        TokenKind::Break
    } else if w == "for"@ {
        TokenKind::For
    } else if w == "in"@ {
        TokenKind::In
    } else {
        TokenKind::Identifier
    }
}

#[derive(Clone, Debug)]
pub struct Token {
    pub kind: TokenKind,
    pub span: Span,
    pub text: String,
    pub newline_before: bool,
}

impl Token {
    pub fn new(kind: TokenKind, span: Span, text: String) -> (r: Token)
        ensures
            r == (Token { kind, span, text, newline_before: false }),
    {
        Token { kind, span, text, newline_before: false }
    }

    /// The token for a word: a keyword, or else an identifier.
    pub fn from_str(text: String, span: Span) -> (r: Token)
        ensures
            r == (Token { kind: word_kind(text@), span, text, newline_before: false }),
    {
        let kind = word_kind_of(&text);
        Token { kind, span, text, newline_before: false }
    }
}

fn word_kind_of(text: &String) -> (r: TokenKind)
    ensures
        r == word_kind(text@),
{
    if same_text(text, "and") {
        TokenKind::And
    } else if same_text(text, "assert") {
        TokenKind::Assert
    } else if same_text(text, "def") {
        TokenKind::Def
    } else if same_text(text, "else") {
        TokenKind::Else
    } else if same_text(text, "false") {
        TokenKind::False
    } else if same_text(text, "if") {
        TokenKind::If
    } else if same_text(text, "let") {
        TokenKind::Let
    } else if same_text(text, "not") {
        TokenKind::Not
    } else if same_text(text, "nothing") {
        TokenKind::Nothing
    } else if same_text(text, "or") {
        TokenKind::Or
    } else if same_text(text, "return") {
        TokenKind::Return
    } else if same_text(text, "true") {
        TokenKind::True
    } else if same_text(text, "while") {
        TokenKind::While
    } else if same_text(text, "continue") {
        TokenKind::Continue
    } else if same_text(text, "break") {
        TokenKind::Break
    } else if same_text(text, "for") {
        TokenKind::For
    } else if same_text(text, "in") {
        TokenKind::In
    } else {
        TokenKind::Identifier
    }
}

} // verus!
