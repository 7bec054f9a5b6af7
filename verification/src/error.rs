//! The error of the outline pipeline (`lexer::tokenize`, `parser::outline::parse`,
//! `semantics::analyze`): the stage that failed and a message.
use vstd::prelude::*;

verus! {

#[derive(Debug, Clone)]
pub enum CompilerError {
    LexerError(String),
    ParseError(String),
    SemanticError(String),
}

/// The text of an error: the stage, a colon, and the message.
pub open spec fn compiler_error_text(e: CompilerError) -> Seq<char> {
    match e {
        CompilerError::LexerError(m) => "Lexer error: "@ + m@,
        CompilerError::ParseError(m) => "Parse error: "@ + m@,
        CompilerError::SemanticError(m) => "Semantic error: "@ + m@,
    }
}

impl CompilerError {
    /// The text of the error (what `Display` shows).
    pub fn to_string(&self) -> (r: String)
        ensures
            r@ == compiler_error_text(*self),
    {
        let (stage, message) = match self {
            CompilerError::LexerError(m) => ("Lexer error: ", m),
            CompilerError::ParseError(m) => ("Parse error: ", m),
            CompilerError::SemanticError(m) => ("Semantic error: ", m),
        };
        let mut r = String::from_str(stage);
        r.append(message.as_str());
        r
    }
}

} // verus!
