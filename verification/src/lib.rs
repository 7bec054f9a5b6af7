//! The Lexum compiler front end: a lexer, a parser to a syntax tree, and a
//! semantic validator that enforces state typing, purity, scope and
//! capability rules; `compile_source` runs them in turn.
pub mod ast;
pub mod error;
pub mod lexer;
pub mod name_map;
pub mod parser;
pub mod semantic;
pub mod semantics;
pub mod text;

use crate::ast::{Ast, SpecAst};
use crate::lexer::{lex, Span, SpecToken, Token};
use crate::lexer::scan::{lemma_lex_ends_with_eof, lex_spec};
use crate::parser::grammar::{tok, SpecParseError};
use crate::parser::statements::{lemma_program_reads_to_eof, program};
use crate::parser::{parse, ParseError};
use crate::semantic::rules::{fresh_validator, validation_errors, SpecSemanticError};
use crate::semantic::{errors_view, SemanticError, SemanticValidator};
use vstd::prelude::*;

verus! {

/// The semantic errors of a source, with the source they point into.
#[derive(Debug)]
pub struct CompileError {
    pub src: String,
    pub errors: Vec<SemanticError>,
}

/// Why a source did not compile.
#[derive(Debug)]
pub enum CompileFailure {
    /// The lexer met a character that starts no token.
    UnknownCharacter(char),
    /// The parser refused the tokens.
    Parse(ParseError),
    /// The validator reported errors.
    Semantic(CompileError),
}

/// The character of the first token of `ts` that the lexer could not read, if any.
pub open spec fn first_unknown(ts: Seq<(SpecToken, Span)>) -> Option<char>
    decreases ts.len(),
{
    if ts.len() == 0 {
        None
    } else {
        match first_unknown(ts.drop_last()) {
            Some(c) => Some(c),
            None => match ts.last().0 {
                SpecToken::Unknown(c) => Some(c),
                _ => None,
            },
        }
    }
}

/// What compiling a source gives, stage by stage: the first unknown character
/// of its tokens; else the parser's error; else the validator's errors on the
/// program with a fresh validator; else the program.
pub enum SpecCompileOutcome {
    UnknownCharacter(char),
    Parse(SpecParseError),
    Semantic(Seq<SpecSemanticError>),
    Compiled(SpecAst),
}

pub open spec fn compile_outcome(source: Seq<char>) -> SpecCompileOutcome {
    let tokens = lex_spec(source);
    match first_unknown(tokens) {
        Some(c) => SpecCompileOutcome::UnknownCharacter(c),
        None => match program(tokens, 0).1 {
            Err(e) => SpecCompileOutcome::Parse(e),
            Ok(a) => {
                let errors = validation_errors(fresh_validator(), a.statements);
                if errors.len() == 0 {
                    SpecCompileOutcome::Compiled(a)
                } else {
                    SpecCompileOutcome::Semantic(errors)
                }
            },
        },
    }
}

/// Runs the front end on a source: lexing, parsing and validation. Returns the
/// validated program, ready for code generation, or why it was refused.
pub fn compile_source(source: &str) -> (r: Result<Ast, CompileFailure>)
    requires
        source@.len() < usize::MAX,
    ensures
        match compile_outcome(source@) {
            SpecCompileOutcome::UnknownCharacter(c) => r matches Err(CompileFailure::UnknownCharacter(x))
                && x == c,
            SpecCompileOutcome::Parse(e) => r matches Err(CompileFailure::Parse(pe)) && pe@ == e,
            SpecCompileOutcome::Semantic(es) => r matches Err(CompileFailure::Semantic(ce)) && ce.src@
                == source@ && errors_view(ce.errors@) == es,
            SpecCompileOutcome::Compiled(a) => r matches Ok(ast) && ast@ == a,
        },
{
    let tokens = lex(source);
    let ghost ts = lex_spec(source@);
    let mut i: usize = 0;
    while i < tokens.len()
        invariant
            i <= tokens@.len(),
            crate::lexer::tokens_view(tokens@) == ts,
            ts == lex_spec(source@),
            first_unknown(ts.take(i as int)) is None,
        decreases tokens@.len() - i,
    {
        assert(ts.take(i + 1).drop_last() =~= ts.take(i as int));
        if let Token::Unknown(c) = &tokens[i].0 {
            assert(first_unknown(ts.take(i + 1)) == Some(*c));
            proof {
                lemma_first_unknown_prefix(ts, i + 1);
            }
            return Err(CompileFailure::UnknownCharacter(*c));
        }
        i = i + 1;
    }
    assert(ts.take(i as int) =~= ts);
    proof {
        lemma_lex_ends_with_eof(source@);
    }
    let ast = match parse(tokens) {
        Ok(ast) => ast,
        Err(e) => {
            return Err(CompileFailure::Parse(e));
        },
    };
    let mut validator = SemanticValidator::new();
    assert(validator@ == fresh_validator());
    match validator.validate(&ast) {
        Ok(()) => Ok(ast),
        Err(errors) => Err(CompileFailure::Semantic(CompileError { src: String::from_str(source), errors })),
    }
}

/// Once a prefix holds an unknown character, the whole list's first unknown
/// character is that of the prefix.
pub proof fn lemma_first_unknown_prefix(ts: Seq<(SpecToken, Span)>, n: int)
    requires
        0 <= n <= ts.len(),
        first_unknown(ts.take(n)) is Some,
    ensures
        first_unknown(ts) == first_unknown(ts.take(n)),
    decreases ts.len() - n,
{
    if n < ts.len() {
        assert(ts.take(n + 1).drop_last() =~= ts.take(n));
        lemma_first_unknown_prefix(ts, n + 1);
    } else {
        assert(ts.take(n) =~= ts);
    }
}

/// Parsing a source's tokens succeeds only by reading all of them: a
/// successful parse stops at the final `EOF`, the only `EOF` the lexer emits.
pub proof fn law_parse_reads_every_token(source: Seq<char>)
    ensures
        program(lex_spec(source), 0).1 is Ok ==> program(lex_spec(source), 0).0 >= lex_spec(source).len() - 1,
{
    let ts = lex_spec(source);
    lemma_lex_ends_with_eof(source);
    lemma_program_reads_to_eof(ts);
    let q = program(ts, 0).0;
    if program(ts, 0).1 is Ok && q < ts.len() - 1 {
        assert(tok(ts, q) == ts[q].0);
    }
}

} // verus!
