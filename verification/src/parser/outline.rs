//! The outline parser: from the outline lexer's tokens to a `SystemNode`.
use crate::ast::tree::SystemNode;
use crate::error::CompilerError;
use crate::lexer::token::Token;
use vstd::prelude::*;

verus! {

/// Parses an outline. An empty token list is refused as an unexpected end of
/// input; any other yields the placeholder system `mock_system` without domains,
/// as the outline grammar is not written yet.
pub fn parse(tokens: &[Token]) -> (r: Result<SystemNode, CompilerError>)
    ensures
        tokens@.len() == 0 ==> (r matches Err(CompilerError::ParseError(m)) && m@ == "Unexpected EOF"@),
        tokens@.len() > 0 ==> (r matches Ok(s) && s.name@ == "mock_system"@ && s.domains@.len() == 0),
{
    if tokens.len() == 0 {
        return Err(CompilerError::ParseError(String::from_str("Unexpected EOF")));
    }
    Ok(SystemNode { name: String::from_str("mock_system"), domains: Vec::new() })
}

} // verus!
