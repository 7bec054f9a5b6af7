//! What the lexer does with the text of a keyword or a symbol: it reads it
//! back as that very token.
use crate::lexer::scan::{
    is_space, is_word_char, is_word_start, lex_from, lex_spec, scan, span_of, word_run, word_token,
};
use crate::lexer::{fixed_text, SpecToken};
use vstd::prelude::*;

verus! {

/// A source whose first token spans all of it lexes as that token and `EOF`.
pub proof fn lemma_lex_one(cs: Seq<char>, t: SpecToken)
    requires
        cs.len() > 0,
        !is_space(cs[0]),
        scan(cs, 0) == (t, cs.len()),
    ensures
        lex_spec(cs) == seq![(t, span_of(cs, 0, cs.len() as int)), (SpecToken::EOF, span_of(cs, cs.len() as int, 0))],
{
    assert(lex_from(cs, cs.len() as int) == seq![(SpecToken::EOF, span_of(cs, cs.len() as int, 0))]);
    assert(seq![(t, span_of(cs, 0, cs.len() as int))] + lex_from(cs, cs.len() as int) =~= seq![
        (t, span_of(cs, 0, cs.len() as int)),
        (SpecToken::EOF, span_of(cs, cs.len() as int, 0)),
    ]);
}

/// A run of word characters from `i` to the end is read whole.
pub proof fn lemma_word_run_to_end(cs: Seq<char>, i: int)
    requires
        0 <= i <= cs.len(),
        forall|k: int| i <= k < cs.len() ==> is_word_char(#[trigger] cs[k]),
    ensures
        word_run(cs, i) == cs.len() - i,
    decreases cs.len() - i,
{
    if i < cs.len() {
        lemma_word_run_to_end(cs, i + 1);
    }
}

/// A word made only of word characters, starting with a letter or `_`, lexes
/// as the one token that `word_token` gives it, then `EOF`.
pub proof fn lemma_lex_word(w: Seq<char>)
    requires
        w.len() > 0,
        is_word_start(w[0]),
        forall|k: int| 0 <= k < w.len() ==> is_word_char(#[trigger] w[k]),
    ensures
        lex_spec(w) == seq![(word_token(w), span_of(w, 0, w.len() as int)), (SpecToken::EOF, span_of(w, w.len() as int, 0))],
{
    lemma_word_run_to_end(w, 0);
    assert(w.subrange(0, w.len() as int) =~= w);
    lemma_lex_one(w, word_token(w));
}

/// Each keyword's text is a word that names that keyword.
pub proof fn law_keyword_names_itself(t: SpecToken)
    requires
        t == SpecToken::Domain || t == SpecToken::System || t == SpecToken::Environment || t == SpecToken::Deploy || t == SpecToken::Scope || t == SpecToken::Capability || t == SpecToken::State || t == SpecToken::Goal || t == SpecToken::Transition || t == SpecToken::Priority || t == SpecToken::Target || t == SpecToken::Strategy || t == SpecToken::Slice || t == SpecToken::Step || t == SpecToken::To || t == SpecToken::Start || t == SpecToken::Send || t == SpecToken::SendHigh || t == SpecToken::If || t == SpecToken::While || t == SpecToken::True || t == SpecToken::False,
    ensures
        word_token(fixed_text(t)) == t,
        fixed_text(t).len() > 0,
        is_word_start(fixed_text(t)[0]),
        forall|k: int| 0 <= k < fixed_text(t).len() ==> is_word_char(#[trigger] fixed_text(t)[k]),
{
    reveal_strlit("domain");
    reveal_strlit("system");
    reveal_strlit("environment");
    reveal_strlit("deploy");
    reveal_strlit("scope");
    reveal_strlit("capability");
    reveal_strlit("state");
    reveal_strlit("goal");
    reveal_strlit("transition");
    reveal_strlit("priority");
    reveal_strlit("target");
    reveal_strlit("strategy");
    reveal_strlit("slice");
    reveal_strlit("step");
    reveal_strlit("to");
    reveal_strlit("start");
    reveal_strlit("send");
    reveal_strlit("send_high");
    reveal_strlit("if");
    reveal_strlit("while");
    reveal_strlit("true");
    reveal_strlit("false");
    assert("domain"@[0] == 'd' && "domain"@[1] == 'o' && "domain"@[2] == 'm' && "domain"@[3] == 'a');
    assert("system"@[0] == 's' && "system"@[1] == 'y' && "system"@[2] == 's' && "system"@[3] == 't');
    assert("environment"@[0] == 'e' && "environment"@[1] == 'n' && "environment"@[2] == 'v' && "environment"@[3] == 'i');
    assert("deploy"@[0] == 'd' && "deploy"@[1] == 'e' && "deploy"@[2] == 'p' && "deploy"@[3] == 'l');
    assert("scope"@[0] == 's' && "scope"@[1] == 'c' && "scope"@[2] == 'o' && "scope"@[3] == 'p');
    assert("capability"@[0] == 'c' && "capability"@[1] == 'a' && "capability"@[2] == 'p' && "capability"@[3] == 'a');
    assert("state"@[0] == 's' && "state"@[1] == 't' && "state"@[2] == 'a' && "state"@[3] == 't');
    assert("goal"@[0] == 'g' && "goal"@[1] == 'o' && "goal"@[2] == 'a' && "goal"@[3] == 'l');
    assert("transition"@[0] == 't' && "transition"@[1] == 'r' && "transition"@[2] == 'a' && "transition"@[3] == 'n');
    assert("priority"@[0] == 'p' && "priority"@[1] == 'r' && "priority"@[2] == 'i' && "priority"@[3] == 'o');
    assert("target"@[0] == 't' && "target"@[1] == 'a' && "target"@[2] == 'r' && "target"@[3] == 'g');
    assert("strategy"@[0] == 's' && "strategy"@[1] == 't' && "strategy"@[2] == 'r' && "strategy"@[3] == 'a');
    assert("slice"@[0] == 's' && "slice"@[1] == 'l' && "slice"@[2] == 'i' && "slice"@[3] == 'c');
    assert("step"@[0] == 's' && "step"@[1] == 't' && "step"@[2] == 'e' && "step"@[3] == 'p');
    assert("to"@[0] == 't' && "to"@[1] == 'o');
    assert("start"@[0] == 's' && "start"@[1] == 't' && "start"@[2] == 'a' && "start"@[3] == 'r');
    assert("send"@[0] == 's' && "send"@[1] == 'e' && "send"@[2] == 'n' && "send"@[3] == 'd');
    assert("send_high"@[0] == 's' && "send_high"@[1] == 'e' && "send_high"@[2] == 'n' && "send_high"@[3] == 'd');
    assert("if"@[0] == 'i' && "if"@[1] == 'f');
    assert("while"@[0] == 'w' && "while"@[1] == 'h' && "while"@[2] == 'i' && "while"@[3] == 'l');
    assert("true"@[0] == 't' && "true"@[1] == 'r' && "true"@[2] == 'u' && "true"@[3] == 'e');
    assert("false"@[0] == 'f' && "false"@[1] == 'a' && "false"@[2] == 'l' && "false"@[3] == 's');
    match t {
        SpecToken::Domain => {
            assert(word_token("domain"@) == SpecToken::Domain);
        },
        SpecToken::System => {
            assert(word_token("system"@) == SpecToken::System);
        },
        SpecToken::Environment => {
            assert(word_token("environment"@) == SpecToken::Environment);
        },
        SpecToken::Deploy => {
            assert(word_token("deploy"@) == SpecToken::Deploy);
        },
        SpecToken::Scope => {
            assert(word_token("scope"@) == SpecToken::Scope);
        },
        SpecToken::Capability => {
            assert(word_token("capability"@) == SpecToken::Capability);
        },
        SpecToken::State => {
            assert(word_token("state"@) == SpecToken::State);
        },
        SpecToken::Goal => {
            assert(word_token("goal"@) == SpecToken::Goal);
        },
        SpecToken::Transition => {
            assert(word_token("transition"@) == SpecToken::Transition);
        },
        SpecToken::Priority => {
            assert(word_token("priority"@) == SpecToken::Priority);
        },
        SpecToken::Target => {
            assert(word_token("target"@) == SpecToken::Target);
        },
        SpecToken::Strategy => {
            assert(word_token("strategy"@) == SpecToken::Strategy);
        },
        SpecToken::Slice => {
            assert(word_token("slice"@) == SpecToken::Slice);
        },
        SpecToken::Step => {
            assert(word_token("step"@) == SpecToken::Step);
        },
        SpecToken::To => {
            assert(word_token("to"@) == SpecToken::To);
        },
        SpecToken::Start => {
            assert(word_token("start"@) == SpecToken::Start);
        },
        SpecToken::Send => {
            assert(word_token("send"@) == SpecToken::Send);
        },
        SpecToken::SendHigh => {
            assert("send_high"@.len() == 9);
            assert("send_high"@ != "send"@);
            assert(word_token("send_high"@) == SpecToken::SendHigh);
        },
        SpecToken::If => {
            assert(word_token("if"@) == SpecToken::If);
        },
        SpecToken::While => {
            assert(word_token("while"@) == SpecToken::While);
        },
        SpecToken::True => {
            assert(word_token("true"@) == SpecToken::True);
        },
        SpecToken::False => {
            assert(word_token("false"@) == SpecToken::False);
        },
        _ => {},
    }
    let w = fixed_text(t);
    assert forall|k: int| 0 <= k < w.len() implies is_word_char(#[trigger] w[k]) by {
        assert(k < 11);
        assert(k == 0 || k == 1 || k == 2 || k == 3 || k == 4 || k == 5 || k == 6 || k == 7 || k == 8 || k == 9 || k == 10);
    }
}

/// The text of a keyword lexes back as that keyword, followed by `EOF`.
pub proof fn law_keyword_text_lexes_back(t: SpecToken)
    requires
        t == SpecToken::Domain || t == SpecToken::System || t == SpecToken::Environment || t == SpecToken::Deploy || t == SpecToken::Scope || t == SpecToken::Capability || t == SpecToken::State || t == SpecToken::Goal || t == SpecToken::Transition || t == SpecToken::Priority || t == SpecToken::Target || t == SpecToken::Strategy || t == SpecToken::Slice || t == SpecToken::Step || t == SpecToken::To || t == SpecToken::Start || t == SpecToken::Send || t == SpecToken::SendHigh || t == SpecToken::If || t == SpecToken::While || t == SpecToken::True || t == SpecToken::False,
    ensures
        lex_spec(fixed_text(t)).len() == 2,
        lex_spec(fixed_text(t))[0].0 == t,
        lex_spec(fixed_text(t))[1].0 == SpecToken::EOF,
{
    law_keyword_names_itself(t);
    lemma_lex_word(fixed_text(t));
}

/// The text of a symbol lexes back as that symbol, followed by `EOF`.
#[verifier::rlimit(60)]
pub proof fn law_symbol_text_lexes_back(t: SpecToken)
    requires
        t == SpecToken::LBrace || t == SpecToken::RBrace || t == SpecToken::LParen || t == SpecToken::RParen || t == SpecToken::Colon || t == SpecToken::Comma || t == SpecToken::Equal || t == SpecToken::EqualEqual || t == SpecToken::NotEqual || t == SpecToken::LessThan || t == SpecToken::GreaterThan || t == SpecToken::LTEqual || t == SpecToken::GTEqual || t == SpecToken::Plus || t == SpecToken::Minus || t == SpecToken::Asterisk || t == SpecToken::Slash || t == SpecToken::Modulo,
    ensures
        lex_spec(fixed_text(t)).len() == 2,
        lex_spec(fixed_text(t))[0].0 == t,
        lex_spec(fixed_text(t))[1].0 == SpecToken::EOF,
{
    match t {
        SpecToken::LBrace => {
            reveal_strlit("{");
            assert("{"@.len() == 1 && "{"@[0] == '{');
            lemma_lex_one("{"@, t);
        },
        SpecToken::RBrace => {
            reveal_strlit("}");
            assert("}"@.len() == 1 && "}"@[0] == '}');
            lemma_lex_one("}"@, t);
        },
        SpecToken::LParen => {
            reveal_strlit("(");
            assert("("@.len() == 1 && "("@[0] == '(');
            lemma_lex_one("("@, t);
        },
        SpecToken::RParen => {
            reveal_strlit(")");
            assert(")"@.len() == 1 && ")"@[0] == ')');
            lemma_lex_one(")"@, t);
        },
        SpecToken::Colon => {
            reveal_strlit(":");
            assert(":"@.len() == 1 && ":"@[0] == ':');
            lemma_lex_one(":"@, t);
        },
        SpecToken::Comma => {
            reveal_strlit(",");
            assert(","@.len() == 1 && ","@[0] == ',');
            lemma_lex_one(","@, t);
        },
        SpecToken::Equal => {
            reveal_strlit("=");
            assert("="@.len() == 1 && "="@[0] == '=');
            lemma_lex_one("="@, t);
        },
        SpecToken::EqualEqual => {
            reveal_strlit("==");
            assert("=="@.len() == 2 && "=="@[0] == '=' && "=="@[1] == '=');
            lemma_lex_one("=="@, t);
        },
        SpecToken::NotEqual => {
            reveal_strlit("!=");
            assert("!="@.len() == 2 && "!="@[0] == '!' && "!="@[1] == '=');
            lemma_lex_one("!="@, t);
        },
        SpecToken::LessThan => {
            reveal_strlit("<");
            assert("<"@.len() == 1 && "<"@[0] == '<');
            lemma_lex_one("<"@, t);
        },
        SpecToken::GreaterThan => {
            reveal_strlit(">");
            assert(">"@.len() == 1 && ">"@[0] == '>');
            lemma_lex_one(">"@, t);
        },
        SpecToken::LTEqual => {
            reveal_strlit("<=");
            assert("<="@.len() == 2 && "<="@[0] == '<' && "<="@[1] == '=');
            lemma_lex_one("<="@, t);
        },
        SpecToken::GTEqual => {
            reveal_strlit(">=");
            assert(">="@.len() == 2 && ">="@[0] == '>' && ">="@[1] == '=');
            lemma_lex_one(">="@, t);
        },
        SpecToken::Plus => {
            reveal_strlit("+");
            assert("+"@.len() == 1 && "+"@[0] == '+');
            lemma_lex_one("+"@, t);
        },
        SpecToken::Minus => {
            reveal_strlit("-");
            assert("-"@.len() == 1 && "-"@[0] == '-');
            lemma_lex_one("-"@, t);
        },
        SpecToken::Asterisk => {
            reveal_strlit("*");
            assert("*"@.len() == 1 && "*"@[0] == '*');
            lemma_lex_one("*"@, t);
        },
        SpecToken::Slash => {
            reveal_strlit("/");
            assert("/"@.len() == 1 && "/"@[0] == '/');
            lemma_lex_one("/"@, t);
        },
        SpecToken::Modulo => {
            reveal_strlit("%");
            assert("%"@.len() == 1 && "%"@[0] == '%');
            lemma_lex_one("%"@, t);
        },
        _ => {},
    }
}

} // verus!
