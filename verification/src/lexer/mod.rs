//! Tokens of the Lexum language, their source positions, and the lexer that
//! turns source text into tokens.
pub mod laws;
pub mod scan;
pub mod token;

pub use scan::lex;

use crate::error::CompilerError;
use crate::text::{int_text, push_char, write_i64};
use vstd::prelude::*;

verus! {

/// Where a token stands in the source: its byte offset and byte length, and the
/// (1-based) line and column of its first character.
#[derive(Clone, Copy, Debug, PartialEq, Eq, Structural)]
pub struct Span {
    pub offset: usize,
    pub len: usize,
    pub line: usize,
    pub column: usize,
}

impl View for Span {
    type V = Span;

    open spec fn view(&self) -> Span {
        *self
    }
}

/// A token of the Lexum language.
#[derive(Debug, Clone, PartialEq)]
pub enum Token {
    Domain,
    System,
    Environment,
    Deploy,
    Scope,
    Capability,
    State,
    Goal,
    Transition,
    Priority,
    Target,
    Strategy,
    Slice,
    Step,
    To,
    Start,
    Send,
    SendHigh,
    If,
    While,
    True,
    False,
    Identifier(String),
    StringLiteral(String),
    IntLiteral(i64),
    LBrace,
    RBrace,
    LParen,
    RParen,
    Colon,
    Comma,
    Equal,
    EqualEqual,
    NotEqual,
    LessThan,
    GreaterThan,
    LTEqual,
    GTEqual,
    Plus,
    Minus,
    Asterisk,
    Slash,
    Modulo,
    Unknown(char),
    EOF,
}

/// The mathematical value of a token: the token with its strings as character sequences.
pub enum SpecToken {
    Domain,
    System,
    Environment,
    Deploy,
    Scope,
    Capability,
    State,
    Goal,
    Transition,
    Priority,
    Target,
    Strategy,
    Slice,
    Step,
    To,
    Start,
    Send,
    SendHigh,
    If,
    While,
    True,
    False,
    Identifier(Seq<char>),
    StringLiteral(Seq<char>),
    IntLiteral(i64),
    LBrace,
    RBrace,
    LParen,
    RParen,
    Colon,
    Comma,
    Equal,
    EqualEqual,
    NotEqual,
    LessThan,
    GreaterThan,
    LTEqual,
    GTEqual,
    Plus,
    Minus,
    Asterisk,
    Slash,
    Modulo,
    Unknown(char),
    EOF,
}

impl View for Token {
    type V = SpecToken;

    open spec fn view(&self) -> SpecToken {
        match self {
            Token::Domain => SpecToken::Domain,
            Token::System => SpecToken::System,
            Token::Environment => SpecToken::Environment,
            Token::Deploy => SpecToken::Deploy,
            Token::Scope => SpecToken::Scope,
            Token::Capability => SpecToken::Capability,
            Token::State => SpecToken::State,
            Token::Goal => SpecToken::Goal,
            Token::Transition => SpecToken::Transition,
            Token::Priority => SpecToken::Priority,
            Token::Target => SpecToken::Target,
            Token::Strategy => SpecToken::Strategy,
            Token::Slice => SpecToken::Slice,
            Token::Step => SpecToken::Step,
            Token::To => SpecToken::To,
            Token::Start => SpecToken::Start,
            Token::Send => SpecToken::Send,
            Token::SendHigh => SpecToken::SendHigh,
            Token::If => SpecToken::If,
            Token::While => SpecToken::While,
            Token::True => SpecToken::True,
            Token::False => SpecToken::False,
            Token::Identifier(s) => SpecToken::Identifier(s@),
            Token::StringLiteral(s) => SpecToken::StringLiteral(s@),
            Token::IntLiteral(n) => SpecToken::IntLiteral(*n),
            Token::LBrace => SpecToken::LBrace,
            Token::RBrace => SpecToken::RBrace,
            Token::LParen => SpecToken::LParen,
            Token::RParen => SpecToken::RParen,
            Token::Colon => SpecToken::Colon,
            Token::Comma => SpecToken::Comma,
            Token::Equal => SpecToken::Equal,
            Token::EqualEqual => SpecToken::EqualEqual,
            Token::NotEqual => SpecToken::NotEqual,
            Token::LessThan => SpecToken::LessThan,
            Token::GreaterThan => SpecToken::GreaterThan,
            Token::LTEqual => SpecToken::LTEqual,
            Token::GTEqual => SpecToken::GTEqual,
            Token::Plus => SpecToken::Plus,
            Token::Minus => SpecToken::Minus,
            Token::Asterisk => SpecToken::Asterisk,
            Token::Slash => SpecToken::Slash,
            Token::Modulo => SpecToken::Modulo,
            Token::Unknown(c) => SpecToken::Unknown(*c),
            Token::EOF => SpecToken::EOF,
        }
    }
}

/// The source text of a keyword or symbol token; empty for the tokens that
/// carry a value and for `EOF`.
pub open spec fn fixed_text(t: SpecToken) -> Seq<char> {
    match t {
        SpecToken::Domain => "domain"@,
        SpecToken::System => "system"@,
        SpecToken::Environment => "environment"@,
        SpecToken::Deploy => "deploy"@,
        SpecToken::Scope => "scope"@,
        SpecToken::Capability => "capability"@,
        SpecToken::State => "state"@,
        SpecToken::Goal => "goal"@,
        SpecToken::Transition => "transition"@,
        SpecToken::Priority => "priority"@,
        SpecToken::Target => "target"@,
        SpecToken::Strategy => "strategy"@,
        SpecToken::Slice => "slice"@,
        SpecToken::Step => "step"@,
        SpecToken::To => "to"@,
        SpecToken::Start => "start"@,
        SpecToken::Send => "send"@,
        SpecToken::SendHigh => "send_high"@,
        SpecToken::If => "if"@,
        SpecToken::While => "while"@,
        SpecToken::True => "true"@,
        SpecToken::False => "false"@,
        SpecToken::LBrace => "{"@,
        SpecToken::RBrace => "}"@,
        SpecToken::LParen => "("@,
        SpecToken::RParen => ")"@,
        SpecToken::Colon => ":"@,
        SpecToken::Comma => ","@,
        SpecToken::Equal => "="@,
        SpecToken::EqualEqual => "=="@,
        SpecToken::NotEqual => "!="@,
        SpecToken::LessThan => "<"@,
        SpecToken::GreaterThan => ">"@,
        SpecToken::LTEqual => "<="@,
        SpecToken::GTEqual => ">="@,
        SpecToken::Plus => "+"@,
        SpecToken::Minus => "-"@,
        SpecToken::Asterisk => "*"@,
        SpecToken::Slash => "/"@,
        SpecToken::Modulo => "%"@,
        _ => Seq::empty(),
    }
}

/// How a token is shown in diagnostics: keywords and symbols by their source
/// text, identifiers by their name, string literals between double quotes,
/// integers in decimal, an unknown character as itself, and the end of input as `EOF`.
pub open spec fn token_text(t: SpecToken) -> Seq<char> {
    match t {
        SpecToken::Identifier(s) => s,
        SpecToken::StringLiteral(s) => seq!['"'] + s + seq!['"'],
        SpecToken::IntLiteral(n) => int_text(n as int),
        SpecToken::Unknown(c) => seq![c],
        SpecToken::EOF => "EOF"@,
        _ => fixed_text(t),
    }
}

impl Token {
    /// The keyword or symbol text of a token that carries no value.
    fn fixed(&self) -> (r: &'static str)
        ensures
            r@ == fixed_text(self@),
    {
        match self {
            Token::Domain => "domain",
            Token::System => "system",
            Token::Environment => "environment",
            Token::Deploy => "deploy",
            Token::Scope => "scope",
            Token::Capability => "capability",
            Token::State => "state",
            Token::Goal => "goal",
            Token::Transition => "transition",
            Token::Priority => "priority",
            Token::Target => "target",
            Token::Strategy => "strategy",
            Token::Slice => "slice",
            Token::Step => "step",
            Token::To => "to",
            Token::Start => "start",
            Token::Send => "send",
            Token::SendHigh => "send_high",
            Token::If => "if",
            Token::While => "while",
            Token::True => "true",
            Token::False => "false",
            Token::LBrace => "{",
            Token::RBrace => "}",
            Token::LParen => "(",
            Token::RParen => ")",
            Token::Colon => ":",
            Token::Comma => ",",
            Token::Equal => "=",
            Token::EqualEqual => "==",
            Token::NotEqual => "!=",
            Token::LessThan => "<",
            Token::GreaterThan => ">",
            Token::LTEqual => "<=",
            Token::GTEqual => ">=",
            Token::Plus => "+",
            Token::Minus => "-",
            Token::Asterisk => "*",
            Token::Slash => "/",
            Token::Modulo => "%",
            _ => {
                proof {
                    reveal_strlit("");
                }
                ""
            },
        }
    }

    /// Appends the diagnostic text of the token to `s`.
    pub fn write_text(&self, s: &mut String)
        ensures
            final(s)@ == old(s)@ + token_text(self@),
    {
        match self {
            Token::Identifier(name) => {
                s.append(name.as_str());
            },
            Token::StringLiteral(value) => {
                push_char(s, '"');
                s.append(value.as_str());
                push_char(s, '"');
                assert(final(s)@ =~= old(s)@ + token_text(self@));
            },
            Token::IntLiteral(n) => {
                write_i64(s, *n);
            },
            Token::Unknown(c) => {
                push_char(s, *c);
                assert(final(s)@ =~= old(s)@ + token_text(self@));
            },
            Token::EOF => {
                s.append("EOF");
            },
            _ => {
                s.append(self.fixed());
            },
        }
    }

    /// The diagnostic text of the token (what `Display` would show).
    pub fn text(&self) -> (r: String)
        ensures
            r@ == token_text(self@),
    {
        let mut s = String::new();
        self.write_text(&mut s);
        assert(s@ =~= token_text(self@));
        s
    }

    /// A copy of the token.
    pub fn copy(&self) -> (r: Token)
        ensures
            r@ == self@,
    {
        match self {
            Token::Identifier(s) => Token::Identifier(s.clone()),
            Token::StringLiteral(s) => Token::StringLiteral(s.clone()),
            Token::IntLiteral(n) => Token::IntLiteral(*n),
            Token::Unknown(c) => Token::Unknown(*c),
            Token::Domain => Token::Domain,
            Token::System => Token::System,
            Token::Environment => Token::Environment,
            Token::Deploy => Token::Deploy,
            Token::Scope => Token::Scope,
            Token::Capability => Token::Capability,
            Token::State => Token::State,
            Token::Goal => Token::Goal,
            Token::Transition => Token::Transition,
            Token::Priority => Token::Priority,
            Token::Target => Token::Target,
            Token::Strategy => Token::Strategy,
            Token::Slice => Token::Slice,
            Token::Step => Token::Step,
            Token::To => Token::To,
            Token::Start => Token::Start,
            Token::Send => Token::Send,
            Token::SendHigh => Token::SendHigh,
            Token::If => Token::If,
            Token::While => Token::While,
            Token::True => Token::True,
            Token::False => Token::False,
            Token::LBrace => Token::LBrace,
            Token::RBrace => Token::RBrace,
            Token::LParen => Token::LParen,
            Token::RParen => Token::RParen,
            Token::Colon => Token::Colon,
            Token::Comma => Token::Comma,
            Token::Equal => Token::Equal,
            Token::EqualEqual => Token::EqualEqual,
            Token::NotEqual => Token::NotEqual,
            Token::LessThan => Token::LessThan,
            Token::GreaterThan => Token::GreaterThan,
            Token::LTEqual => Token::LTEqual,
            Token::GTEqual => Token::GTEqual,
            Token::Plus => Token::Plus,
            Token::Minus => Token::Minus,
            Token::Asterisk => Token::Asterisk,
            Token::Slash => Token::Slash,
            Token::Modulo => Token::Modulo,
            Token::EOF => Token::EOF,
        }
    }

    /// Whether two tokens are the same token, payloads compared by value.
    pub fn same_as(&self, other: &Token) -> (r: bool)
        ensures
            r == (self@ == other@),
    {
        if self.kind_index() != other.kind_index() {
            return false;
        }
        proof {
            lemma_kind_number(self@, other@);
        }
        match self {
            Token::Identifier(a) => match other {
                Token::Identifier(b) => *a == *b,
                _ => false,
            },
            Token::StringLiteral(a) => match other {
                Token::StringLiteral(b) => *a == *b,
                _ => false,
            },
            Token::IntLiteral(a) => match other {
                Token::IntLiteral(b) => *a == *b,
                _ => false,
            },
            Token::Unknown(a) => match other {
                Token::Unknown(b) => *a == *b,
                _ => false,
            },
            _ => true,
        }
    }

    /// The position of a token's variant in the declaration of `Token`.
    fn kind_index(&self) -> (r: u8)
        ensures
            r == kind_number(self@),
    {
        match self {
            Token::Domain => 0,
            Token::System => 1,
            Token::Environment => 2,
            Token::Deploy => 3,
            Token::Scope => 4,
            Token::Capability => 5,
            Token::State => 6,
            Token::Goal => 7,
            Token::Transition => 8,
            Token::Priority => 9,
            Token::Target => 10,
            Token::Strategy => 11,
            Token::Slice => 12,
            Token::Step => 13,
            Token::To => 14,
            Token::Start => 15,
            Token::Send => 16,
            Token::SendHigh => 17,
            Token::If => 18,
            Token::While => 19,
            Token::True => 20,
            Token::False => 21,
            Token::Identifier(_) => 22,
            Token::StringLiteral(_) => 23,
            Token::IntLiteral(_) => 24,
            Token::LBrace => 25,
            Token::RBrace => 26,
            Token::LParen => 27,
            Token::RParen => 28,
            Token::Colon => 29,
            Token::Comma => 30,
            Token::Equal => 31,
            Token::EqualEqual => 32,
            Token::NotEqual => 33,
            Token::LessThan => 34,
            Token::GreaterThan => 35,
            Token::LTEqual => 36,
            Token::GTEqual => 37,
            Token::Plus => 38,
            Token::Minus => 39,
            Token::Asterisk => 40,
            Token::Slash => 41,
            Token::Modulo => 42,
            Token::Unknown(_) => 43,
            Token::EOF => 44,
        }
    }
}

/// The position of a token's variant in the declaration of `Token`.
pub open spec fn kind_number(t: SpecToken) -> u8 {
    match t {
        SpecToken::Domain => 0,
        SpecToken::System => 1,
        SpecToken::Environment => 2,
        SpecToken::Deploy => 3,
        SpecToken::Scope => 4,
        SpecToken::Capability => 5,
        SpecToken::State => 6,
        SpecToken::Goal => 7,
        SpecToken::Transition => 8,
        SpecToken::Priority => 9,
        SpecToken::Target => 10,
        SpecToken::Strategy => 11,
        SpecToken::Slice => 12,
        SpecToken::Step => 13,
        SpecToken::To => 14,
        SpecToken::Start => 15,
        SpecToken::Send => 16,
        SpecToken::SendHigh => 17,
        SpecToken::If => 18,
        SpecToken::While => 19,
        SpecToken::True => 20,
        SpecToken::False => 21,
        SpecToken::Identifier(_) => 22,
        SpecToken::StringLiteral(_) => 23,
        SpecToken::IntLiteral(_) => 24,
        SpecToken::LBrace => 25,
        SpecToken::RBrace => 26,
        SpecToken::LParen => 27,
        SpecToken::RParen => 28,
        SpecToken::Colon => 29,
        SpecToken::Comma => 30,
        SpecToken::Equal => 31,
        SpecToken::EqualEqual => 32,
        SpecToken::NotEqual => 33,
        SpecToken::LessThan => 34,
        SpecToken::GreaterThan => 35,
        SpecToken::LTEqual => 36,
        SpecToken::GTEqual => 37,
        SpecToken::Plus => 38,
        SpecToken::Minus => 39,
        SpecToken::Asterisk => 40,
        SpecToken::Slash => 41,
        SpecToken::Modulo => 42,
        SpecToken::Unknown(_) => 43,
        SpecToken::EOF => 44,
    }
}

/// Tokens with the same variant number and no payload are equal; tokens with a
/// payload and the same variant number have the same variant.
pub proof fn lemma_kind_number(a: SpecToken, b: SpecToken)
    requires
        kind_number(a) == kind_number(b),
    ensures
        a is Identifier <==> b is Identifier,
        a is StringLiteral <==> b is StringLiteral,
        a is IntLiteral <==> b is IntLiteral,
        a is Unknown <==> b is Unknown,
        !(a is Identifier || a is StringLiteral || a is IntLiteral || a is Unknown) ==> a == b,
{
    match a {
        SpecToken::Domain => {},
        SpecToken::System => {},
        SpecToken::Environment => {},
        SpecToken::Deploy => {},
        SpecToken::Scope => {},
        SpecToken::Capability => {},
        SpecToken::State => {},
        SpecToken::Goal => {},
        SpecToken::Transition => {},
        SpecToken::Priority => {},
        SpecToken::Target => {},
        SpecToken::Strategy => {},
        SpecToken::Slice => {},
        SpecToken::Step => {},
        SpecToken::To => {},
        SpecToken::Start => {},
        SpecToken::Send => {},
        SpecToken::SendHigh => {},
        SpecToken::If => {},
        SpecToken::While => {},
        SpecToken::True => {},
        SpecToken::False => {},
        SpecToken::Identifier(_) => {},
        SpecToken::StringLiteral(_) => {},
        SpecToken::IntLiteral(_) => {},
        SpecToken::LBrace => {},
        SpecToken::RBrace => {},
        SpecToken::LParen => {},
        SpecToken::RParen => {},
        SpecToken::Colon => {},
        SpecToken::Comma => {},
        SpecToken::Equal => {},
        SpecToken::EqualEqual => {},
        SpecToken::NotEqual => {},
        SpecToken::LessThan => {},
        SpecToken::GreaterThan => {},
        SpecToken::LTEqual => {},
        SpecToken::GTEqual => {},
        SpecToken::Plus => {},
        SpecToken::Minus => {},
        SpecToken::Asterisk => {},
        SpecToken::Slash => {},
        SpecToken::Modulo => {},
        SpecToken::Unknown(_) => {},
        SpecToken::EOF => {},
    }
}

/// The mathematical value of a token list: each token by its view, each span as it is.
pub open spec fn tokens_view(ts: Seq<(Token, Span)>) -> Seq<(SpecToken, Span)> {
    ts.map_values(|p: (Token, Span)| (p.0@, p.1))
}

/// The outline lexer, which as yet reads nothing of the source: its token list
/// is the end-of-input token alone, at line 0 and column 0.
pub fn tokenize(_source: &str) -> (r: Result<Vec<token::Token>, CompilerError>)
    ensures
        r matches Ok(ts) && ts@ == seq![
            token::Token { kind: token::TokenKind::Eof, line: 0, column: 0 },
        ],
{
    let mut tokens: Vec<token::Token> = Vec::new();
    tokens.push(token::Token::new(token::TokenKind::Eof, 0, 0));
    assert(tokens@ =~= seq![token::Token { kind: token::TokenKind::Eof, line: 0, column: 0 }]);
    Ok(tokens)
}

} // verus!
