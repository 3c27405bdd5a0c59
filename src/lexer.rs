use vstd::prelude::*;
use crate::error::{Error, ErrorKind};
use crate::text::{chars_of, text_of, join};
use crate::token::{Location, Span, Token, TokenKind};

verus! {

/// Turns source text into tokens, each with the place where it stands.
pub struct Lexer {
    pub chars: Vec<char>,
    pub filename: String,
}

pub fn is_digit(c: char) -> (r: bool)
    ensures
        r == ('0' <= c && c <= '9'),
{
    '0' <= c && c <= '9'
}

/// Whether a word (a keyword or an identifier) can start with `c`.
pub fn starts_word(c: char) -> (r: bool)
    ensures
        r == (('a' <= c && c <= 'z') || ('A' <= c && c <= 'Z') || c == '_'),
{
    ('a' <= c && c <= 'z') || ('A' <= c && c <= 'Z') || c == '_'
}

/// Whether `c` can stand in a word after its first character.
pub fn in_word(c: char) -> (r: bool)
    ensures
        r == (('a' <= c && c <= 'z') || ('A' <= c && c <= 'Z') || c == '_' || ('0' <= c && c <= '9')),
{
    starts_word(c) || is_digit(c)
}

/// The tokens are not empty and end with the one `EOF` token.
pub open spec fn ends_with_eof(tokens: Seq<Token>) -> bool {
    tokens.len() > 0 && tokens.last().kind == TokenKind::EOF
        && forall|i: int| 0 <= i < tokens.len() - 1 ==> (#[trigger] tokens[i]).kind != TokenKind::EOF
}

impl Lexer {
    pub fn new(content: String, filename: String) -> (r: Lexer)
        ensures
            r.chars@ == content@,
            r.filename == filename,
    {
        Lexer { chars: chars_of(&content), filename }
    }

    fn location(&self, line: usize, column: usize) -> (r: Location)
        ensures
            r.line == line && r.column == column,
    {
        Location { line, column, filename: self.filename.clone() }
    }

    fn char_at(&self, i: usize) -> (r: Option<char>)
        ensures
            i < self.chars@.len() ==> r == Some(self.chars@[i as int]),
            i >= self.chars@.len() ==> r is None,
    {
        if i < self.chars.len() { Some(self.chars[i]) } else { None }
    }

    /// The tokens of the whole text, ending with `EOF`, or the first place
    /// that no token can start.
    pub fn lex(&self) -> (r: Result<Vec<Token>, Error>)
        ensures
            match r {
                Ok(tokens) => ends_with_eof(tokens@),
                Err(e) => e.kind == ErrorKind::Lexer,
            },
    {
        let mut tokens: Vec<Token> = Vec::new();
        let mut i: usize = 0;
        let mut line: usize = 1;
        let mut column: usize = 1;
        let mut newline = false;
        let n = self.chars.len();
        while i < n
            invariant
                n == self.chars@.len(),
                i <= n,
                forall|k: int| 0 <= k < tokens@.len() ==> (#[trigger] tokens@[k]).kind != TokenKind::EOF,
            decreases n - i,
        {
            let c = self.chars[i];
            if c == '\n' {
                i = i + 1;
                line = line.wrapping_add(1);
                column = 1;
                newline = true;
                continue;
            }
            if c == ' ' || c == '\t' || c == '\r' {
                i = i + 1;
                column = column.wrapping_add(1);
                continue;
            }
            if c == '#' {
                let ghost i0 = i;
                i = i + 1;
                while i < n && self.chars[i] != '\n'
                    invariant
                        n == self.chars@.len(),
                        i0 < i <= n,
                    decreases n - i,
                {
                    i = i + 1;
                }
                continue;
            }
            let start = self.location(line, column);
            let begin = i;
            let (kind, text, next) = match self.scan(i) {
                Ok(x) => x,
                Err(message) => {
                    let end = self.location(line, column.wrapping_add(1));
                    return Err(Error { kind: ErrorKind::Lexer, span: Span(start, end), message });
                },
            };
            column = column.wrapping_add(next - begin);
            i = next;
            let end = self.location(line, column);
            let mut t = Token::new(kind, Span(start, end), text);
            if kind == TokenKind::Identifier {
                t = Token::from_str(t.text, t.span);
            }
            t.newline_before = newline;
            newline = false;
            tokens.push(t);
        }
        let here = self.location(line, column);
        let there = self.location(line, column);
        let mut eof = Token::new(TokenKind::EOF, Span(here, there), String::new());
        eof.newline_before = newline;
        tokens.push(eof);
        Ok(tokens)
    }

    /// The kind, text and end of the token that starts at `i`, or what is
    /// wrong there. Identifiers come back as `Identifier`, keywords included.
    fn scan(&self, i: usize) -> (r: Result<(TokenKind, String, usize), String>)
        requires
            i < self.chars@.len(),
        ensures
            match r {
                Ok((kind, _, next)) => i < next <= self.chars@.len() && kind != TokenKind::EOF,
                Err(_) => true,
            },
    {
        let n = self.chars.len();
        let c = self.chars[i];
        let d = self.char_at(i + 1);
        if starts_word(c) {
            let mut j = i + 1;
            while j < n && in_word(self.chars[j])
                invariant
                    n == self.chars@.len(),
                    i < j <= n,
                decreases n - j,
            {
                j = j + 1;
            }
            return Ok((TokenKind::Identifier, self.slice(i, j), j));
        }
        if is_digit(c) {
            if c == '0' && (d == Some('b') || d == Some('o') || d == Some('x')) {
                let kind = if d == Some('b') {
                    TokenKind::IntegerLiteralBin
                } else if d == Some('o') {
                    TokenKind::IntegerLiteralOct
                } else {
                    TokenKind::IntegerLiteralHex
                };
                let mut j = i + 2;
                while j < n && in_word(self.chars[j])
                    invariant
                        n == self.chars@.len(),
                        i + 2 <= j <= n,
                    decreases n - j,
                {
                    j = j + 1;
                }
                return Ok((kind, self.slice(i + 2, j), j));
            }
            let mut j = i + 1;
            while j < n && is_digit(self.chars[j])
                invariant
                    n == self.chars@.len(),
                    i < j <= n,
                decreases n - j,
            {
                j = j + 1;
            }
            let fraction = n - j > 1 && self.chars[j] == '.' && is_digit(self.chars[j + 1]);
            if fraction {
                j = j + 1;
                while j < n && is_digit(self.chars[j])
                    invariant
                        n == self.chars@.len(),
                        i < j <= n,
                    decreases n - j,
                {
                    j = j + 1;
                }
                return Ok((TokenKind::FloatLiteral, self.slice(i, j), j));
            }
            return Ok((TokenKind::IntegerLiteralDec, self.slice(i, j), j));
        }
        if c == '"' {
            let mut content: Vec<char> = Vec::new();
            let mut j = i + 1;
            while j < n && self.chars[j] != '"'
                invariant
                    n == self.chars@.len(),
                    i < j <= n,
                decreases n - j,
            {
                let e = self.chars[j];
                if e == '\\' && j + 1 < n {
                    let x = self.chars[j + 1];
                    let unescaped = if x == 'n' { '\n' } else if x == 't' { '\t' } else { x };
                    content.push(unescaped);
                    j = j + 2;
                } else {
                    content.push(e);
                    j = j + 1;
                }
            }
            if j >= n {
                return Err(String::from_str("Unterminated string literal"));
            }
            return Ok((TokenKind::StringLiteral, text_of(&content), j + 1));
        }
        let two = match (c, d) {
            ('!', Some('=')) => Some(TokenKind::BangEquals),
            ('.', Some('.')) => Some(TokenKind::DotDot),
            ('=', Some('=')) => Some(TokenKind::EqualsEquals),
            ('=', Some('>')) => Some(TokenKind::FatArrow),
            ('<', Some('=')) => Some(TokenKind::LessEquals),
            ('>', Some('=')) => Some(TokenKind::GreaterEquals),
            _ => None,
        };
        if let Some(kind) = two {
            return Ok((kind, String::new(), i + 2));
        }
        let one = match c {
            '@' => Some(TokenKind::At),
            '!' => Some(TokenKind::Bang),
            ':' => Some(TokenKind::Colon),
            ',' => Some(TokenKind::Comma),
            '.' => Some(TokenKind::Dot),
            '=' => Some(TokenKind::Equals),
            '{' => Some(TokenKind::LeftBrace),
            '[' => Some(TokenKind::LeftBracket),
            '(' => Some(TokenKind::LeftParen),
            '<' => Some(TokenKind::LessThan),
            '>' => Some(TokenKind::GreaterThan),
            '-' => Some(TokenKind::Minus),
            '|' => Some(TokenKind::Pipe),
            '+' => Some(TokenKind::Plus),
            '}' => Some(TokenKind::RightBrace),
            ']' => Some(TokenKind::RightBracket),
            ')' => Some(TokenKind::RightParen),
            ';' => Some(TokenKind::SemiColon),
            '/' => Some(TokenKind::Slash),
            '*' => Some(TokenKind::Star),
            _ => None,
        };
        match one {
            Some(kind) => Ok((kind, String::new(), i + 1)),
            None => {
                let mut bad: Vec<char> = Vec::new();
                bad.push(c);
                Err(join(String::from_str("Unexpected character: "), text_of(&bad).as_str()))
            },
        }
    }

    /// The text of the characters from `a` up to `b`.
    fn slice(&self, a: usize, b: usize) -> (r: String)
        requires
            a <= b <= self.chars@.len(),
        ensures
            r@ == self.chars@.subrange(a as int, b as int),
    {
        let mut v: Vec<char> = Vec::new();
        let mut k = a;
        while k < b
            invariant
                a <= k <= b <= self.chars@.len(),
                v@ == self.chars@.subrange(a as int, k as int),
            decreases b - k,
        {
            v.push(self.chars[k]);
            proof { assert(v@ =~= self.chars@.subrange(a as int, k as int + 1)); }
            k = k + 1;
        }
        text_of(&v)
    }
}

} // verus!
