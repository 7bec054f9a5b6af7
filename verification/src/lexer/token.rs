//! The tokens of the outline lexer: a kind and a line and column.
use vstd::prelude::*;

verus! {

#[derive(Debug, Clone, PartialEq, Eq)]
pub enum TokenKind {
    // Keywords
    Domain,
    State,
    Transition,
    Goal,
    Step,
    Emit,
    Trigger,
    Send,
    System,
    Slice,
    // Identifiers and literals
    Identifier(String),
    StringLiteral(String),
    IntLiteral(i64),
    BoolLiteral(bool),
    // Symbols
    /// `{`
    LeftBrace,
    /// `}`
    RightBrace,
    /// `(`
    LeftParen,
    /// `)`
    RightParen,
    /// `:`
    Colon,
    /// `=`
    Equal,
    /// `==`
    Equals,
    /// `+`
    Plus,
    /// `-`
    Minus,
    // End of input
    Eof,
}

#[derive(Debug, Clone, PartialEq, Eq)]
pub struct Token {
    pub kind: TokenKind,
    pub line: usize,
    pub column: usize,
}

impl Token {
    pub fn new(kind: TokenKind, line: usize, column: usize) -> (r: Token)
        ensures
            r == (Token { kind, line, column }),
    {
        Token { kind, line, column }
    }
}

} // verus!
