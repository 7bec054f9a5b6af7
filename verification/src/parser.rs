//! The parser: from the lexer's tokens to the syntax tree, by recursive descent
//! for declarations and by precedence climbing for expressions.
pub mod grammar;
pub mod laws;
pub mod outline;
pub mod statements;

use crate::ast::{
    exprs_view, Ast, AuthorityScope, DeployStmt, DomainDecl, EnvironmentDecl, Expr, ExprKind,
    GoalDecl, SpecExpr, SpecStateField, StartDomain, StateField, Statement, StatementKind,
    SystemDecl, TransitionDecl,
};
use crate::lexer::{token_text, tokens_view, Span, Token};
use crate::parser::grammar::{
    arguments, block, consume, error_at, expected_message, expr, expr_at_end, joined,
    more_arguments, next, operator_text, operators, operators_at_end, precedence_of, send_call,
    span_at, tok, ErrorSpan, SpecParseError, Toks,
};
use crate::parser::statements::{
    capability_clause, capability_names, goal, goal_clauses, scope_clause, state_block,
    state_fields, strategy_clause, strategy_names, target_keyword, transition, transition_clauses,
    configurations, deploy, domain, domain_items, environment, init_exprs, program, start_domain,
    start_domains, system, statements, domain_item, DomainBody, GoalHead, TransitionHead,
};
use crate::parser::grammar::ident;
use crate::text::{names_view, write_i64, write_u64};
use vstd::prelude::*;

verus! {

/// A syntax error: its message and the span of the token it points at.
#[derive(Debug)]
pub struct ParseError {
    pub message: String,
    pub span: ErrorSpan,
}

impl View for ParseError {
    type V = SpecParseError;

    open spec fn view(&self) -> SpecParseError {
        SpecParseError { message: self.message@, span: self.span }
    }
}

/// The model of a parse result: the value by `f`, the error by its view.
pub open spec fn outcome<T, V>(r: Result<T, ParseError>, f: spec_fn(T) -> V) -> Result<V, SpecParseError> {
    match r {
        Ok(v) => Ok(f(v)),
        Err(e) => Err(e@),
    }
}

/// The model of an expression result.
pub open spec fn expr_outcome(r: Result<Expr, ParseError>) -> Result<SpecExpr, SpecParseError> {
    outcome(r, |e: Expr| e@)
}

/// The model of a result holding a list of expressions.
pub open spec fn exprs_outcome(r: Result<Vec<Expr>, ParseError>) -> Result<Seq<SpecExpr>, SpecParseError> {
    outcome(r, |v: Vec<Expr>| exprs_view(v@))
}

/// A parser over a list of tokens, standing at a position in it.
pub struct Parser {
    tokens: Vec<(Token, Span)>,
    pos: usize,
}

/// The model of a parser: the tokens it reads and where it stands.
pub struct ParserModel {
    pub tokens: Toks,
    pub pos: int,
}

impl View for Parser {
    type V = ParserModel;

    closed spec fn view(&self) -> ParserModel {
        ParserModel { tokens: tokens_view(self.tokens@), pos: self.pos as int }
    }
}

impl Parser {
    /// Whether the parser can read: it has tokens and stands within or just past them.
    pub open spec fn wf(&self) -> bool {
        self@.tokens.len() > 0 && 0 <= self@.pos <= self@.tokens.len()
    }

    /// Whether `after` reads the same tokens as `before`, at a position no earlier.
    pub open spec fn moved_on(before: ParserModel, after: ParserModel) -> bool {
        after.tokens == before.tokens && before.pos <= after.pos <= after.tokens.len()
    }

    /// A parser at the start of `tokens`.
    pub fn new(tokens: Vec<(Token, Span)>) -> (r: Parser)
        ensures
            r@ == (ParserModel { tokens: tokens_view(tokens@), pos: 0 }),
    {
        Parser { tokens, pos: 0 }
    }

    fn at_end(&self) -> (r: bool)
        ensures
            r == (self@.pos >= self@.tokens.len()),
    {
        self.pos >= self.tokens.len()
    }

    fn peek(&self) -> (r: &(Token, Span))
        requires
            self.wf(),
        ensures
            r.0@ == tok(self@.tokens, self@.pos),
            r.1 == span_at(self@.tokens, self@.pos),
    {
        if self.pos < self.tokens.len() {
            &self.tokens[self.pos]
        } else {
            &self.tokens[self.tokens.len() - 1]
        }
    }

    /// Reads the token at the current position and moves past it (unless past the end).
    fn advance(&mut self) -> (r: (Token, Span))
        requires
            old(self).wf(),
        ensures
            final(self).wf(),
            final(self)@.tokens == old(self)@.tokens,
            final(self)@.pos == next(old(self)@.tokens, old(self)@.pos),
            r.0@ == tok(old(self)@.tokens, old(self)@.pos),
            r.1 == span_at(old(self)@.tokens, old(self)@.pos),
    {
        let p = self.peek();
        let r = (p.0.copy(), p.1);
        if self.pos < self.tokens.len() {
            self.pos = self.pos + 1;
        }
        r
    }

    fn check(&self, expected: &Token) -> (r: bool)
        requires
            self.wf(),
        ensures
            r == (tok(self@.tokens, self@.pos) == expected@),
    {
        self.peek().0.same_as(expected)
    }

    /// The error with the given message at the current token.
    fn err<T>(&self, message: String) -> (r: Result<T, ParseError>)
        requires
            self.wf(),
        ensures
            r matches Err(e) && e@ == error_at(self@.tokens, self@.pos, message@),
    {
        let span = self.peek().1;
        Err(ParseError { message, span: ErrorSpan { offset: span.offset, len: span.len } })
    }

    /// The error whose message is `prefix` followed by the text of `t`.
    fn err_token<T>(&self, prefix: &str, t: &Token) -> (r: Result<T, ParseError>)
        requires
            self.wf(),
        ensures
            r matches Err(e) && e@ == error_at(self@.tokens, self@.pos, prefix@ + token_text(t@)),
    {
        let mut m = String::from_str(prefix);
        t.write_text(&mut m);
        self.err(m)
    }

    fn consume(&mut self, expected: Token) -> (r: Result<Span, ParseError>)
        requires
            old(self).wf(),
        ensures
            final(self).wf(),
            Parser::moved_on(old(self)@, final(self)@),
            consume(old(self)@.tokens, old(self)@.pos, expected@) == (
                final(self)@.pos,
                outcome(r, |s: Span| s),
            ),
    {
        if self.check(&expected) {
            let (_, span) = self.advance();
            Ok(span)
        } else {
            let span = self.peek().1;
            let found = &self.peek().0;
            let mut m = String::from_str("Syntax Error at line ");
            write_u64(&mut m, span.line as u64);
            m.append(" col ");
            write_u64(&mut m, span.column as u64);
            m.append(": Expected ");
            expected.write_text(&mut m);
            m.append(", but found ");
            found.write_text(&mut m);
            assert(m@ =~= expected_message(self@.tokens, self@.pos, expected@));
            self.err(m)
        }
    }
}

/// The span from the start of `first` to the end of `last`.
fn join(first: Span, last: Span) -> (r: Span)
    ensures
        r == joined(first, last),
{
    Span {
        offset: first.offset,
        len: last.offset.wrapping_add(last.len).wrapping_sub(first.offset),
        line: first.line,
        column: first.column,
    }
}

impl Parser {
    /// The target or message of a send: an identifier or a string literal, or
    /// the error `prefix` followed by the token found.
    fn send_word(&mut self, prefix: &str) -> (r: Result<String, ParseError>)
        requires
            old(self).wf(),
        ensures
            final(self).wf(),
            Parser::moved_on(old(self)@, final(self)@),
            final(self)@.pos == next(old(self)@.tokens, old(self)@.pos),
            crate::parser::grammar::word(tok(old(self)@.tokens, old(self)@.pos)) matches Some(w)
                ==> (r matches Ok(s) && s@ == w),
            crate::parser::grammar::word(tok(old(self)@.tokens, old(self)@.pos)) is None ==> (
            r matches Err(e) && e@ == error_at(
                final(self)@.tokens,
                final(self)@.pos,
                prefix@ + token_text(tok(old(self)@.tokens, old(self)@.pos)),
            )),
    {
        let (t, _) = self.advance();
        match t {
            Token::Identifier(id) => Ok(id),
            Token::StringLiteral(s) => Ok(s),
            other => self.err_token(prefix, &other),
        }
    }

    /// `send(target, message)` or `send_high(target, message)` after the keyword.
    fn send_call(&mut self, s0: Span, high: bool) -> (r: Result<Expr, ParseError>)
        requires
            old(self).wf(),
        ensures
            final(self).wf(),
            Parser::moved_on(old(self)@, final(self)@),
            send_call(old(self)@.tokens, old(self)@.pos, s0, high) == (
                final(self)@.pos,
                expr_outcome(r),
            ),
    {
        proof {
            reveal_strlit("Expected string/ident target for send_high, got ");
            reveal_strlit("Expected string/ident target for send, got ");
            reveal_strlit("Expected string/ident target for ");
            reveal_strlit("Expected string/ident msg for send_high, got ");
            reveal_strlit("Expected string/ident msg for send, got ");
            reveal_strlit("Expected string/ident msg for ");
            reveal_strlit(", got ");
            reveal_strlit("send_high");
            reveal_strlit("send");
            assert("Expected string/ident target for send_high, got "@ =~= "Expected string/ident target for "@ + "send_high"@ + ", got "@);
            assert("Expected string/ident target for send, got "@ =~= "Expected string/ident target for "@ + "send"@ + ", got "@);
            assert("Expected string/ident msg for send_high, got "@ =~= "Expected string/ident msg for "@ + "send_high"@ + ", got "@);
            assert("Expected string/ident msg for send, got "@ =~= "Expected string/ident msg for "@ + "send"@ + ", got "@);
        }
        self.consume(Token::LParen)?;
        let target = if high {
            self.send_word("Expected string/ident target for send_high, got ")?
        } else {
            self.send_word("Expected string/ident target for send, got ")?
        };
        self.consume(Token::Comma)?;
        let message = if high {
            self.send_word("Expected string/ident msg for send_high, got ")?
        } else {
            self.send_word("Expected string/ident msg for send, got ")?
        };
        let rp = self.consume(Token::RParen)?;
        let kind = if high {
            ExprKind::SendHigh { target, message }
        } else {
            ExprKind::Send { target, message }
        };
        Ok(Expr { kind, span: join(s0, rp) })
    }

    /// An expression read past the end of the token list.
    fn expression_at_end(&mut self) -> (r: Result<Expr, ParseError>)
        requires
            old(self).wf(),
            old(self)@.pos >= old(self)@.tokens.len(),
        ensures
            final(self).wf(),
            Parser::moved_on(old(self)@, final(self)@),
            expr_at_end(old(self)@.tokens, old(self)@.pos) == (final(self)@.pos, expr_outcome(r)),
    {
        let (t, span) = self.advance();
        match t {
            Token::IntLiteral(v) => Ok(Expr { kind: ExprKind::IntLiteral(v), span }),
            Token::StringLiteral(s) => Ok(Expr { kind: ExprKind::StringLiteral(s), span }),
            Token::Identifier(id) => Ok(Expr { kind: ExprKind::Ident(id), span }),
            Token::True => Ok(Expr { kind: ExprKind::BoolLiteral(true), span }),
            Token::False => Ok(Expr { kind: ExprKind::BoolLiteral(false), span }),
            Token::LParen | Token::If | Token::While => self.err(String::from_str("Unexpected end of input")),
            Token::Send => self.send_call(span, false),
            Token::SendHigh => self.send_call(span, true),
            other => self.err_token("Unexpected token in expression: ", &other),
        }
    }

    /// The operator loop read past the end of the token list.
    fn operators_at_end(&self, precedence: u8, left: Expr) -> (r: Result<Expr, ParseError>)
        requires
            self.wf(),
            self@.pos >= self@.tokens.len(),
        ensures
            operators_at_end(self@.tokens, self@.pos, precedence, left@) == (
                self@.pos,
                expr_outcome(r),
            ),
    {
        let t = &self.peek().0;
        if precedence < self.get_precedence(t) {
            match t {
                Token::LParen => self.err(String::from_str("Unexpected end of input")),
                Token::NotEqual => self.err(String::from_str("Unsupported binary operator: NotEqual")),
                _ => self.err_token("Unexpected token in expression: ", t),
            }
        } else {
            Ok(left)
        }
    }

    /// The binding strength of a token that continues an expression.
    fn get_precedence(&self, token: &Token) -> (r: u8)
        ensures
            r == precedence_of(token@),
    {
        match token {
            Token::Equal => 1,
            Token::EqualEqual | Token::NotEqual | Token::LessThan | Token::GreaterThan
            | Token::LTEqual | Token::GTEqual => 2,
            Token::Plus | Token::Minus => 3,
            Token::Asterisk | Token::Slash | Token::Modulo => 4,
            Token::LParen => 6,
            _ => 0,
        }
    }

    /// A statement or expression: an expression at the loosest binding.
    fn parse_statement_or_expr(&mut self) -> (r: Result<Expr, ParseError>)
        requires
            old(self).wf(),
        ensures
            final(self).wf(),
            Parser::moved_on(old(self)@, final(self)@),
            expr(old(self)@.tokens, old(self)@.pos, 0) == (final(self)@.pos, expr_outcome(r)),
    {
        self.parse_expression(0)
    }

    /// An expression whose operators bind more tightly than `precedence`.
    #[verifier::rlimit(40)]
    pub fn parse_expression(&mut self, precedence: u8) -> (r: Result<Expr, ParseError>)
        requires
            old(self).wf(),
        ensures
            final(self).wf(),
            Parser::moved_on(old(self)@, final(self)@),
            expr(old(self)@.tokens, old(self)@.pos, precedence) == (
                final(self)@.pos,
                expr_outcome(r),
            ),
        decreases old(self)@.tokens.len() - old(self)@.pos, 2int,
    {
        if self.at_end() {
            let left = self.expression_at_end()?;
            return self.operators_at_end(precedence, left);
        }
        let ghost p = self@.pos;
        let (t, s0) = self.advance();
        match t {
            Token::IntLiteral(v) => self.parse_operators(precedence, Expr { kind: ExprKind::IntLiteral(v), span: s0 }),
            Token::StringLiteral(v) => self.parse_operators(precedence, Expr { kind: ExprKind::StringLiteral(v), span: s0 }),
            Token::Identifier(v) => self.parse_operators(precedence, Expr { kind: ExprKind::Ident(v), span: s0 }),
            Token::True => self.parse_operators(precedence, Expr { kind: ExprKind::BoolLiteral(true), span: s0 }),
            Token::False => self.parse_operators(precedence, Expr { kind: ExprKind::BoolLiteral(false), span: s0 }),
            Token::LParen => {
                let inner = self.parse_expression(0)?;
                let rp = self.consume(Token::RParen)?;
                self.parse_operators(precedence, Expr { kind: inner.kind, span: join(s0, rp) })
            },
            Token::Send => {
                let e = self.send_call(s0, false)?;
                self.parse_operators(precedence, e)
            },
            Token::SendHigh => {
                let e = self.send_call(s0, true)?;
                self.parse_operators(precedence, e)
            },
            Token::If | Token::While => {
                let is_if = match t {
                    Token::If => true,
                    _ => false,
                };
                let condition = self.parse_expression(0)?;
                self.consume(Token::LBrace)?;
                let body = self.parse_block(Vec::new())?;
                let rb = self.consume(Token::RBrace)?;
                let kind = if is_if {
                    ExprKind::If { condition: Box::new(condition), consequence: body }
                } else {
                    ExprKind::While { condition: Box::new(condition), body }
                };
                self.parse_operators(precedence, Expr { kind, span: join(s0, rb) })
            },
            other => self.err_token("Unexpected token in expression: ", &other),
        }
    }

    /// Extends `left` by calls and binary operators that bind more tightly than `precedence`.
    #[verifier::loop_isolation(false)]
    fn parse_operators(&mut self, precedence: u8, left: Expr) -> (r: Result<Expr, ParseError>)
        requires
            old(self).wf(),
        ensures
            final(self).wf(),
            Parser::moved_on(old(self)@, final(self)@),
            operators(old(self)@.tokens, old(self)@.pos, precedence, left@) == (
                final(self)@.pos,
                expr_outcome(r),
            ),
        decreases old(self)@.tokens.len() - old(self)@.pos, 1int,
    {
        let ghost start = self@;
        let ghost left0 = left@;
        let mut left = left;
        loop
            invariant
                self.wf(),
                Parser::moved_on(start, self@),
                operators(start.tokens, start.pos, precedence, left0) == operators(
                    self@.tokens,
                    self@.pos,
                    precedence,
                    left@,
                ),
            decreases self@.tokens.len() - self@.pos,
        {
            if self.at_end() {
                return self.operators_at_end(precedence, left);
            }
            if !(precedence < self.get_precedence(&self.peek().0)) {
                return Ok(left);
            }
            let (op, _) = self.advance();
            match op {
                Token::LParen => {
                    let args = self.parse_arguments()?;
                    let rp = self.consume(Token::RParen)?;
                    let span = join(left.span, rp);
                    match left.kind {
                        ExprKind::Ident(function) => {
                            left = Expr { kind: ExprKind::Call { function, arguments: args }, span };
                        },
                        _ => {
                            return self.err(String::from_str("Invalid function call target"));
                        },
                    }
                },
                _ => {
                    let op_text = match operator_str(&op) {
                        Some(text) => text,
                        None => {
                            return self.err(String::from_str("Unsupported binary operator: NotEqual"));
                        },
                    };
                    let is_assignment = match op {
                        Token::Equal => true,
                        _ => false,
                    };
                    let right_prec: u8 = if is_assignment { 0 } else { self.get_precedence(&op) };
                    let right = self.parse_expression(right_prec)?;
                    let span = join(left.span, right.span);
                    if is_assignment {
                        match left.kind {
                            ExprKind::Ident(target) => {
                                left = Expr { kind: ExprKind::Assignment { target, value: Box::new(right) }, span };
                            },
                            _ => {
                                return self.err(String::from_str("Invalid assignment target"));
                            },
                        }
                    } else {
                        left = Expr {
                            kind: ExprKind::BinaryOp {
                                left: Box::new(left),
                                op: String::from_str(op_text),
                                right: Box::new(right),
                            },
                            span,
                        };
                    }
                },
            }
        }
    }

    /// The expressions of a block, up to its closing brace or `EOF`, after `acc`.
    #[verifier::loop_isolation(false)]
    fn parse_block(&mut self, acc: Vec<Expr>) -> (r: Result<Vec<Expr>, ParseError>)
        requires
            old(self).wf(),
        ensures
            final(self).wf(),
            Parser::moved_on(old(self)@, final(self)@),
            block(old(self)@.tokens, old(self)@.pos, exprs_view(acc@)) == (
                final(self)@.pos,
                exprs_outcome(r),
            ),
        decreases old(self)@.tokens.len() - old(self)@.pos, 3int,
    {
        let ghost start = self@;
        let ghost acc0 = acc@;
        let mut acc = acc;
        loop
            invariant
                self.wf(),
                Parser::moved_on(start, self@),
                block(start.tokens, start.pos, exprs_view(acc0)) == block(
                    self@.tokens,
                    self@.pos,
                    exprs_view(acc@),
                ),
            decreases self@.tokens.len() - self@.pos,
        {
            if self.check(&Token::RBrace) || self.check(&Token::EOF) {
                return Ok(acc);
            }
            let before = self.pos;
            let e = self.parse_expression(0)?;
            if self.pos <= before {
                return self.err(String::from_str("Unexpected end of input"));
            }
            proof {
                assert(exprs_view(acc@.push(e)) =~= exprs_view(acc@).push(e@)) by {
                    assert(acc@.push(e).drop_last() =~= acc@);
                }
            }
            acc.push(e);
        }
    }

    /// The arguments of a call, after its opening parenthesis.
    fn parse_arguments(&mut self) -> (r: Result<Vec<Expr>, ParseError>)
        requires
            old(self).wf(),
        ensures
            final(self).wf(),
            Parser::moved_on(old(self)@, final(self)@),
            arguments(old(self)@.tokens, old(self)@.pos) == (final(self)@.pos, exprs_outcome(r)),
        decreases old(self)@.tokens.len() - old(self)@.pos, 4int,
    {
        if self.check(&Token::RParen) {
            let none: Vec<Expr> = Vec::new();
            assert(exprs_view(none@) =~= Seq::<SpecExpr>::empty());
            return Ok(none);
        }
        let first = self.parse_expression(0)?;
        let mut acc = Vec::new();
        proof {
            assert(exprs_view(acc@) =~= Seq::<SpecExpr>::empty());
            assert(exprs_view(acc@.push(first)) =~= seq![first@]) by {
                assert(acc@.push(first).drop_last() =~= acc@);
            }
        }
        acc.push(first);
        self.parse_more_arguments(acc)
    }

    /// Further `, argument` pairs of a call, after `acc`.
    #[verifier::loop_isolation(false)]
    fn parse_more_arguments(&mut self, acc: Vec<Expr>) -> (r: Result<Vec<Expr>, ParseError>)
        requires
            old(self).wf(),
        ensures
            final(self).wf(),
            Parser::moved_on(old(self)@, final(self)@),
            more_arguments(old(self)@.tokens, old(self)@.pos, exprs_view(acc@)) == (
                final(self)@.pos,
                exprs_outcome(r),
            ),
        decreases old(self)@.tokens.len() - old(self)@.pos, 3int,
    {
        let ghost start = self@;
        let ghost acc0 = acc@;
        let mut acc = acc;
        loop
            invariant
                self.wf(),
                Parser::moved_on(start, self@),
                more_arguments(start.tokens, start.pos, exprs_view(acc0)) == more_arguments(
                    self@.tokens,
                    self@.pos,
                    exprs_view(acc@),
                ),
            decreases self@.tokens.len() - self@.pos,
        {
            if !self.check(&Token::Comma) {
                return Ok(acc);
            }
            let before = self.pos;
            self.consume(Token::Comma)?;
            let e = self.parse_expression(0)?;
            if self.pos <= before {
                return self.err(String::from_str("Unexpected end of input"));
            }
            proof {
                assert(exprs_view(acc@.push(e)) =~= exprs_view(acc@).push(e@)) by {
                    assert(acc@.push(e).drop_last() =~= acc@);
                }
            }
            acc.push(e);
        }
    }
}

/// The model of a list of state fields.
pub open spec fn fields_view(v: Seq<StateField>) -> Seq<SpecStateField> {
    v.map_values(|f: StateField| f@)
}

/// The model of what a domain body has declared so far.
pub open spec fn body_model(
    scope: Option<AuthorityScope>,
    caps: Seq<String>,
    state: Seq<StateField>,
    goals: Seq<GoalDecl>,
    transitions: Seq<TransitionDecl>,
) -> DomainBody {
    DomainBody {
        scope,
        caps: names_view(caps),
        state: fields_view(state),
        goals: goals.map_values(|g: GoalDecl| g@),
        transitions: transitions.map_values(|t: TransitionDecl| t@),
    }
}

impl Parser {
    /// The name carried by the next token, which it consumes; otherwise the error
    /// `prefix` followed by the token found (or `prefix` alone when `show` is false).
    fn name_or(&mut self, prefix: &str, show: bool) -> (r: Result<String, ParseError>)
        requires
            old(self).wf(),
        ensures
            final(self).wf(),
            Parser::moved_on(old(self)@, final(self)@),
            final(self)@.pos == next(old(self)@.tokens, old(self)@.pos),
            ident(tok(old(self)@.tokens, old(self)@.pos)) matches Some(w) ==> (r matches Ok(s)
                && s@ == w),
            ident(tok(old(self)@.tokens, old(self)@.pos)) is None ==> (r matches Err(e) && e@
                == error_at(
                final(self)@.tokens,
                final(self)@.pos,
                if show {
                    prefix@ + token_text(tok(old(self)@.tokens, old(self)@.pos))
                } else {
                    prefix@
                },
            )),
    {
        let (t, _) = self.advance();
        match t {
            Token::Identifier(id) => Ok(id),
            other => if show {
                self.err_token(prefix, &other)
            } else {
                self.err(String::from_str(prefix))
            },
        }
    }

    /// `scope { name }`.
    fn parse_scope_clause(&mut self, missing: &str) -> (r: Result<AuthorityScope, ParseError>)
        requires
            old(self).wf(),
        ensures
            final(self).wf(),
            Parser::moved_on(old(self)@, final(self)@),
            scope_clause(old(self)@.tokens, old(self)@.pos, missing@) == (
                final(self)@.pos,
                outcome(r, |a: AuthorityScope| a),
            ),
    {
        reveal(scope_clause);
        self.consume(Token::Scope)?;
        self.consume(Token::LBrace)?;
        let s = self.name_or(missing, false)?;
        match AuthorityScope::from_str(s.as_str()) {
            Ok(a) => {
                self.consume(Token::RBrace)?;
                Ok(a)
            },
            Err(e) => self.err(e),
        }
    }

    /// The names of a capability list, after `caps`.
    #[verifier::loop_isolation(false)]
    fn parse_capability_names(&mut self, caps: Vec<String>) -> (r: Result<Vec<String>, ParseError>)
        requires
            old(self).wf(),
        ensures
            final(self).wf(),
            Parser::moved_on(old(self)@, final(self)@),
            capability_names(old(self)@.tokens, old(self)@.pos, names_view(caps@)) == (
                final(self)@.pos,
                outcome(r, |v: Vec<String>| names_view(v@)),
            ),
    {
        let ghost start = self@;
        let ghost caps0 = caps@;
        let mut caps = caps;
        loop
            invariant
                self.wf(),
                Parser::moved_on(start, self@),
                capability_names(start.tokens, start.pos, names_view(caps0)) == capability_names(
                    self@.tokens,
                    self@.pos,
                    names_view(caps@),
                ),
            decreases self@.tokens.len() - self@.pos,
        {
            if self.check(&Token::RBrace) || self.check(&Token::EOF) {
                return Ok(caps);
            }
            let before = self.pos;
            let (t, _) = self.advance();
            match t {
                Token::Identifier(id) => {
                    if self.pos <= before {
                        return self.err(String::from_str("Unexpected end of input"));
                    }
                    assert(names_view(caps@.push(id)) =~= names_view(caps@).push(id@));
                    caps.push(id);
                },
                Token::Comma => {
                    if self.pos <= before {
                        return self.err(String::from_str("Unexpected end of input"));
                    }
                },
                _ => {
                    return self.err(String::from_str("Expected identifier or comma in capability list"));
                },
            }
        }
    }

    /// `capability { a, b, ... }`, its names after `caps`.
    fn parse_capability_clause(&mut self, caps: Vec<String>) -> (r: Result<Vec<String>, ParseError>)
        requires
            old(self).wf(),
        ensures
            final(self).wf(),
            Parser::moved_on(old(self)@, final(self)@),
            capability_clause(old(self)@.tokens, old(self)@.pos, names_view(caps@)) == (
                final(self)@.pos,
                outcome(r, |v: Vec<String>| names_view(v@)),
            ),
    {
        reveal(capability_clause);
        self.consume(Token::Capability)?;
        self.consume(Token::LBrace)?;
        let names = self.parse_capability_names(caps)?;
        self.consume(Token::RBrace)?;
        Ok(names)
    }

    /// The fields of a state block, after `fields`.
    #[verifier::loop_isolation(false)]
    fn parse_state_fields(&mut self, fields: Vec<StateField>) -> (r: Result<Vec<StateField>, ParseError>)
        requires
            old(self).wf(),
        ensures
            final(self).wf(),
            Parser::moved_on(old(self)@, final(self)@),
            state_fields(old(self)@.tokens, old(self)@.pos, fields_view(fields@)) == (
                final(self)@.pos,
                outcome(r, |v: Vec<StateField>| fields_view(v@)),
            ),
    {
        let ghost start = self@;
        let ghost fields0 = fields@;
        let mut fields = fields;
        loop
            invariant
                self.wf(),
                Parser::moved_on(start, self@),
                state_fields(start.tokens, start.pos, fields_view(fields0)) == state_fields(
                    self@.tokens,
                    self@.pos,
                    fields_view(fields@),
                ),
            decreases self@.tokens.len() - self@.pos,
        {
            if self.check(&Token::RBrace) || self.check(&Token::EOF) {
                return Ok(fields);
            }
            let before = self.pos;
            let (name_tok, name_span) = self.advance();
            let name = match name_tok {
                Token::Identifier(id) => id,
                other => {
                    return self.err_token("Expected state field name, found ", &other);
                },
            };
            self.consume(Token::Colon)?;
            let (typ_tok, typ_span) = self.advance();
            let typ = match typ_tok {
                Token::Identifier(id) => id,
                other => {
                    let mut m = String::from_str("Expected type for field ");
                    m.append(name.as_str());
                    m.append(", found ");
                    other.write_text(&mut m);
                    return self.err(m);
                },
            };
            if self.pos <= before {
                return self.err(String::from_str("Unexpected end of input"));
            }
            let field = StateField { name, typ, span: join(name_span, typ_span) };
            assert(fields_view(fields@.push(field)) =~= fields_view(fields@).push(field@));
            fields.push(field);
        }
    }

    /// `state { name: type ... }`.
    fn parse_state_block(&mut self) -> (r: Result<Vec<StateField>, ParseError>)
        requires
            old(self).wf(),
        ensures
            final(self).wf(),
            Parser::moved_on(old(self)@, final(self)@),
            state_block(old(self)@.tokens, old(self)@.pos) == (
                final(self)@.pos,
                outcome(r, |v: Vec<StateField>| fields_view(v@)),
            ),
    {
        reveal(state_block);
        self.consume(Token::State)?;
        self.consume(Token::LBrace)?;
        let none: Vec<StateField> = Vec::new();
        assert(fields_view(none@) =~= Seq::<SpecStateField>::empty());
        let fields = self.parse_state_fields(none)?;
        self.consume(Token::RBrace)?;
        Ok(fields)
    }
}

impl Parser {
    /// The `scope`, `capability` and `priority` clauses at the head of a goal.
    #[verifier::loop_isolation(false)]
    fn parse_goal_clauses(&mut self) -> (r: Result<(Option<AuthorityScope>, Vec<String>, u8), ParseError>)
        requires
            old(self).wf(),
        ensures
            final(self).wf(),
            Parser::moved_on(old(self)@, final(self)@),
            goal_clauses(
                old(self)@.tokens,
                old(self)@.pos,
                GoalHead { scope: None, caps: Seq::empty(), priority: 1 },
            ) == (
                final(self)@.pos,
                outcome(
                    r,
                    |h: (Option<AuthorityScope>, Vec<String>, u8)|
                        GoalHead { scope: h.0, caps: names_view(h.1@), priority: h.2 },
                ),
            ),
    {
        let ghost start = self@;
        let mut scope: Option<AuthorityScope> = None;
        let mut caps: Vec<String> = Vec::new();
        let mut priority: u8 = 1;
        assert(names_view(caps@) =~= Seq::<Seq<char>>::empty());
        loop
            invariant
                self.wf(),
                Parser::moved_on(start, self@),
                goal_clauses(
                    start.tokens,
                    start.pos,
                    GoalHead { scope: None, caps: Seq::empty(), priority: 1 },
                ) == goal_clauses(
                    self@.tokens,
                    self@.pos,
                    GoalHead { scope, caps: names_view(caps@), priority },
                ),
            decreases self@.tokens.len() - self@.pos,
        {
            let before = self.pos;
            if self.check(&Token::Scope) {
                scope = Some(self.parse_scope_clause("Expected identifier in goal scope")?);
            } else if self.check(&Token::Capability) {
                caps = self.parse_capability_clause(caps)?;
            } else if self.check(&Token::Priority) {
                self.consume(Token::Priority)?;
                let (t, _) = self.advance();
                match t {
                    Token::IntLiteral(v) => {
                        if v < 0 || v > 255 {
                            let mut m = String::from_str("Priority must be between 0 and 255, found ");
                            write_i64(&mut m, v);
                            return self.err(m);
                        }
                        priority = v as u8;
                    },
                    other => {
                        return self.err_token("Expected integer after 'priority', found ", &other);
                    },
                }
            } else {
                return Ok((scope, caps, priority));
            }
            if self.pos <= before {
                return self.err(String::from_str("Unexpected end of input"));
            }
        }
    }

    /// The names of a strategy list; other tokens are skipped.
    #[verifier::loop_isolation(false)]
    fn parse_strategy_names(&mut self) -> (r: Result<Vec<String>, ParseError>)
        requires
            old(self).wf(),
        ensures
            final(self).wf(),
            Parser::moved_on(old(self)@, final(self)@),
            strategy_names(old(self)@.tokens, old(self)@.pos, Seq::empty()) == (
                final(self)@.pos,
                outcome(r, |v: Vec<String>| names_view(v@)),
            ),
    {
        let ghost start = self@;
        let mut names: Vec<String> = Vec::new();
        assert(names_view(names@) =~= Seq::<Seq<char>>::empty());
        loop
            invariant
                self.wf(),
                Parser::moved_on(start, self@),
                strategy_names(start.tokens, start.pos, Seq::empty()) == strategy_names(
                    self@.tokens,
                    self@.pos,
                    names_view(names@),
                ),
            decreases self@.tokens.len() - self@.pos,
        {
            if self.check(&Token::RBrace) || self.check(&Token::EOF) {
                return Ok(names);
            }
            let before = self.pos;
            let (t, _) = self.advance();
            if self.pos <= before {
                return self.err(String::from_str("Unexpected end of input"));
            }
            match t {
                Token::Identifier(id) => {
                    assert(names_view(names@.push(id)) =~= names_view(names@).push(id@));
                    names.push(id);
                },
                _ => {},
            }
        }
    }

    /// An optional `strategy { ... }` clause.
    fn parse_strategy_clause(&mut self) -> (r: Result<Vec<String>, ParseError>)
        requires
            old(self).wf(),
        ensures
            final(self).wf(),
            Parser::moved_on(old(self)@, final(self)@),
            strategy_clause(old(self)@.tokens, old(self)@.pos) == (
                final(self)@.pos,
                outcome(r, |v: Vec<String>| names_view(v@)),
            ),
    {
        reveal(strategy_clause);
        if !self.check(&Token::Strategy) {
            let none: Vec<String> = Vec::new();
            assert(names_view(none@) =~= Seq::<Seq<char>>::empty());
            return Ok(none);
        }
        self.consume(Token::Strategy)?;
        self.consume(Token::LBrace)?;
        let names = self.parse_strategy_names()?;
        self.consume(Token::RBrace)?;
        Ok(names)
    }

    /// The keyword `target` or the identifier `predicate`.
    fn parse_target_keyword(&mut self) -> (r: Result<(), ParseError>)
        requires
            old(self).wf(),
        ensures
            final(self).wf(),
            Parser::moved_on(old(self)@, final(self)@),
            target_keyword(old(self)@.tokens, old(self)@.pos) == (
                final(self)@.pos,
                outcome(r, |u: ()| u),
            ),
    {
        reveal(target_keyword);
        proof {
            reveal_strlit("predicate");
        }
        if self.check(&Token::Target) {
            self.advance();
            return Ok(());
        }
        let is_predicate = match &self.peek().0 {
            Token::Identifier(id) => crate::text::str_eq(id.as_str(), "predicate"),
            _ => false,
        };
        if is_predicate {
            self.advance();
            Ok(())
        } else {
            let found = self.peek().0.copy();
            self.err_token("Expected 'target' or 'predicate' for goal, found ", &found)
        }
    }

    /// `goal name { clauses target expr strategy }`.
    fn parse_goal(&mut self) -> (r: Result<GoalDecl, ParseError>)
        requires
            old(self).wf(),
        ensures
            final(self).wf(),
            Parser::moved_on(old(self)@, final(self)@),
            goal(old(self)@.tokens, old(self)@.pos) == (
                final(self)@.pos,
                outcome(r, |g: GoalDecl| g@),
            ),
    {
        reveal(goal);
        let start = self.consume(Token::Goal)?;
        let name = self.name_or("Expected goal name, found ", true)?;
        self.consume(Token::LBrace)?;
        let (scope, required_capabilities, priority) = self.parse_goal_clauses()?;
        self.parse_target_keyword()?;
        let target = self.parse_statement_or_expr()?;
        let strategy = self.parse_strategy_clause()?;
        let rb = self.consume(Token::RBrace)?;
        Ok(GoalDecl { name, scope, required_capabilities, target, strategy, priority, span: join(start, rb) })
    }

    /// The `scope` and `capability` clauses at the head of a transition.
    #[verifier::loop_isolation(false)]
    fn parse_transition_clauses(&mut self) -> (r: Result<(Option<AuthorityScope>, Vec<String>), ParseError>)
        requires
            old(self).wf(),
        ensures
            final(self).wf(),
            Parser::moved_on(old(self)@, final(self)@),
            transition_clauses(
                old(self)@.tokens,
                old(self)@.pos,
                TransitionHead { scope: None, caps: Seq::empty() },
            ) == (
                final(self)@.pos,
                outcome(
                    r,
                    |h: (Option<AuthorityScope>, Vec<String>)|
                        TransitionHead { scope: h.0, caps: names_view(h.1@) },
                ),
            ),
    {
        let ghost start = self@;
        let mut scope: Option<AuthorityScope> = None;
        let mut caps: Vec<String> = Vec::new();
        assert(names_view(caps@) =~= Seq::<Seq<char>>::empty());
        loop
            invariant
                self.wf(),
                Parser::moved_on(start, self@),
                transition_clauses(
                    start.tokens,
                    start.pos,
                    TransitionHead { scope: None, caps: Seq::empty() },
                ) == transition_clauses(
                    self@.tokens,
                    self@.pos,
                    TransitionHead { scope, caps: names_view(caps@) },
                ),
            decreases self@.tokens.len() - self@.pos,
        {
            let before = self.pos;
            if self.check(&Token::Scope) {
                scope = Some(self.parse_scope_clause("Expected identifier in transition scope")?);
            } else if self.check(&Token::Capability) {
                caps = self.parse_capability_clause(caps)?;
            } else {
                return Ok((scope, caps));
            }
            if self.pos <= before {
                return self.err(String::from_str("Unexpected end of input"));
            }
        }
    }

    /// `transition name { clauses [slice] step { exprs } }`.
    fn parse_transition(&mut self) -> (r: Result<TransitionDecl, ParseError>)
        requires
            old(self).wf(),
        ensures
            final(self).wf(),
            Parser::moved_on(old(self)@, final(self)@),
            transition(old(self)@.tokens, old(self)@.pos) == (
                final(self)@.pos,
                outcome(r, |t: TransitionDecl| t@),
            ),
    {
        reveal(transition);
        let start = self.consume(Token::Transition)?;
        let name = self.name_or("Expected transition name, found ", true)?;
        self.consume(Token::LBrace)?;
        let (scope, required_capabilities) = self.parse_transition_clauses()?;
        if self.check(&Token::Slice) {
            self.advance();
        }
        self.consume(Token::Step)?;
        self.consume(Token::LBrace)?;
        let none: Vec<Expr> = Vec::new();
        assert(exprs_view(none@) =~= Seq::<SpecExpr>::empty());
        let slice_step = self.parse_block(none)?;
        self.consume(Token::RBrace)?;
        let rb = self.consume(Token::RBrace)?;
        Ok(TransitionDecl { name, scope, required_capabilities, slice_step, span: join(start, rb) })
    }
}

impl Parser {
    /// The items of a domain body, up to its closing brace or `EOF`.
    #[verifier::loop_isolation(false)]
    fn parse_domain_items(&mut self) -> (r: Result<
        (Option<AuthorityScope>, Vec<String>, Vec<StateField>, Vec<GoalDecl>, Vec<TransitionDecl>),
        ParseError,
    >)
        requires
            old(self).wf(),
        ensures
            final(self).wf(),
            Parser::moved_on(old(self)@, final(self)@),
            domain_items(
                old(self)@.tokens,
                old(self)@.pos,
                body_model(None, Seq::empty(), Seq::empty(), Seq::empty(), Seq::empty()),
            ) == (
                final(self)@.pos,
                outcome(
                    r,
                    |b: (
                        Option<AuthorityScope>,
                        Vec<String>,
                        Vec<StateField>,
                        Vec<GoalDecl>,
                        Vec<TransitionDecl>,
                    )| body_model(b.0, b.1@, b.2@, b.3@, b.4@),
                ),
            ),
    {
        reveal(domain_item);
        let ghost start = self@;
        let mut scope: Option<AuthorityScope> = None;
        let mut caps: Vec<String> = Vec::new();
        let mut state: Vec<StateField> = Vec::new();
        let mut goals: Vec<GoalDecl> = Vec::new();
        let mut transitions: Vec<TransitionDecl> = Vec::new();
        assert(body_model(None, caps@, state@, goals@, transitions@) =~= body_model(
            None,
            Seq::empty(),
            Seq::empty(),
            Seq::empty(),
            Seq::empty(),
        ));
        loop
            invariant
                self.wf(),
                Parser::moved_on(start, self@),
                domain_items(
                    start.tokens,
                    start.pos,
                    body_model(None, Seq::empty(), Seq::empty(), Seq::empty(), Seq::empty()),
                ) == domain_items(
                    self@.tokens,
                    self@.pos,
                    body_model(scope, caps@, state@, goals@, transitions@),
                ),
            decreases self@.tokens.len() - self@.pos,
        {
            if self.check(&Token::RBrace) || self.check(&Token::EOF) {
                return Ok((scope, caps, state, goals, transitions));
            }
            let before = self.pos;
            let t = self.peek().0.copy();
            match t {
                Token::Scope => {
                    scope = Some(self.parse_scope_clause("Expected identifier in domain scope")?);
                },
                Token::Capability => {
                    caps = self.parse_capability_clause(caps)?;
                },
                Token::State => {
                    state = self.parse_state_block()?;
                },
                Token::Goal => {
                    let g = self.parse_goal()?;
                    assert(goals@.push(g).map_values(|g: GoalDecl| g@) =~= goals@.map_values(
                        |g: GoalDecl| g@,
                    ).push(g@));
                    goals.push(g);
                },
                Token::Transition => {
                    let x = self.parse_transition()?;
                    assert(transitions@.push(x).map_values(|t: TransitionDecl| t@)
                        =~= transitions@.map_values(|t: TransitionDecl| t@).push(x@));
                    transitions.push(x);
                },
                other => {
                    return self.err_token("Unexpected token in domain body: ", &other);
                },
            }
            if self.pos <= before {
                return self.err(String::from_str("Unexpected end of input"));
            }
        }
    }

    /// `domain Name { items }`.
    fn parse_domain(&mut self) -> (r: Result<Statement, ParseError>)
        requires
            old(self).wf(),
        ensures
            final(self).wf(),
            Parser::moved_on(old(self)@, final(self)@),
            domain(old(self)@.tokens, old(self)@.pos) == (
                final(self)@.pos,
                outcome(r, |s: Statement| s@),
            ),
    {
        reveal(domain);
        assert(names_view(Seq::<String>::empty()) =~= Seq::<Seq<char>>::empty());
        assert(fields_view(Seq::<StateField>::empty()) =~= Seq::<SpecStateField>::empty());
        assert(Seq::<GoalDecl>::empty().map_values(|g: GoalDecl| g@) =~= Seq::empty());
        assert(Seq::<TransitionDecl>::empty().map_values(|t: TransitionDecl| t@) =~= Seq::empty());
        let start = self.consume(Token::Domain)?;
        let name = self.name_or("Expected identifier after 'domain', found ", true)?;
        self.consume(Token::LBrace)?;
        let (scope, required_capabilities, state, goals, transitions) = self.parse_domain_items()?;
        let rb = self.consume(Token::RBrace)?;
        let invariants = Vec::new();
        let d = DomainDecl { name, scope, required_capabilities, state, goals, transitions, invariants };
        assert(d@.invariants =~= Seq::empty());
        Ok(Statement { kind: StatementKind::DomainDecl(d), span: join(start, rb) })
    }

    /// The `key = expr` entries of an environment.
    #[verifier::loop_isolation(false)]
    fn parse_configurations(&mut self) -> (r: Result<Vec<(String, Expr)>, ParseError>)
        requires
            old(self).wf(),
        ensures
            final(self).wf(),
            Parser::moved_on(old(self)@, final(self)@),
            configurations(old(self)@.tokens, old(self)@.pos, Seq::empty()) == (
                final(self)@.pos,
                outcome(r, |v: Vec<(String, Expr)>| entries_view(v@)),
            ),
    {
        let ghost start = self@;
        let mut entries: Vec<(String, Expr)> = Vec::new();
        assert(entries_view(entries@) =~= Seq::empty());
        loop
            invariant
                self.wf(),
                Parser::moved_on(start, self@),
                configurations(start.tokens, start.pos, Seq::empty()) == configurations(
                    self@.tokens,
                    self@.pos,
                    entries_view(entries@),
                ),
            decreases self@.tokens.len() - self@.pos,
        {
            if self.check(&Token::RBrace) || self.at_end() {
                return Ok(entries);
            }
            let before = self.pos;
            let key = self.name_or("Expected configuration key", false)?;
            self.consume(Token::Equal)?;
            let value = self.parse_statement_or_expr()?;
            if self.pos <= before {
                return self.err(String::from_str("Unexpected end of input"));
            }
            let entry = (key, value);
            assert(entries_view(entries@.push(entry)) =~= entries_view(entries@).push(
                (entry.0@, entry.1@),
            ));
            entries.push(entry);
        }
    }

    /// `environment Name { key = expr ... }`.
    fn parse_environment(&mut self) -> (r: Result<Statement, ParseError>)
        requires
            old(self).wf(),
        ensures
            final(self).wf(),
            Parser::moved_on(old(self)@, final(self)@),
            environment(old(self)@.tokens, old(self)@.pos) == (
                final(self)@.pos,
                outcome(r, |s: Statement| s@),
            ),
    {
        reveal(environment);
        let start = self.consume(Token::Environment)?;
        let name = self.name_or("Expected environment name", false)?;
        self.consume(Token::LBrace)?;
        let configurations = self.parse_configurations()?;
        let rb = self.consume(Token::RBrace)?;
        let e = EnvironmentDecl {
            name,
            configurations,
            available_capabilities: Vec::new(),
            scope_level: None,
        };
        assert(e@.available_capabilities =~= Seq::empty());
        Ok(Statement { kind: StatementKind::EnvironmentDecl(e), span: join(start, rb) })
    }

    /// `deploy [service] Name to Env`.
    fn parse_deploy(&mut self) -> (r: Result<Statement, ParseError>)
        requires
            old(self).wf(),
        ensures
            final(self).wf(),
            Parser::moved_on(old(self)@, final(self)@),
            deploy(old(self)@.tokens, old(self)@.pos) == (
                final(self)@.pos,
                outcome(r, |s: Statement| s@),
            ),
    {
        reveal(deploy);
        proof {
            reveal_strlit("service");
            reveal_strlit("to");
        }
        let start = self.consume(Token::Deploy)?;
        let first = self.name_or("Expected 'service' or identifier after 'deploy'", false)?;
        let service = if crate::text::str_eq(first.as_str(), "service") {
            self.name_or("Expected service name after 'deploy service'", false)?
        } else {
            first
        };
        let (t, _) = self.advance();
        let is_to = match t {
            Token::To => true,
            Token::Identifier(id) => crate::text::str_eq(id.as_str(), "to"),
            _ => false,
        };
        if !is_to {
            return self.err(String::from_str("Expected 'to' in deploy statement"));
        }
        let target_span = self.peek().1;
        let target_environment = self.name_or("Expected target environment name", false)?;
        Ok(Statement {
            kind: StatementKind::DeployStmt(DeployStmt { service, target_environment }),
            span: join(start, target_span),
        })
    }

    /// The expressions of a start block, up to its closing brace.
    #[verifier::loop_isolation(false)]
    fn parse_init_exprs(&mut self) -> (r: Result<Vec<Expr>, ParseError>)
        requires
            old(self).wf(),
        ensures
            final(self).wf(),
            Parser::moved_on(old(self)@, final(self)@),
            init_exprs(old(self)@.tokens, old(self)@.pos, Seq::empty()) == (
                final(self)@.pos,
                exprs_outcome(r),
            ),
    {
        let ghost start = self@;
        let mut acc: Vec<Expr> = Vec::new();
        assert(exprs_view(acc@) =~= Seq::<SpecExpr>::empty());
        loop
            invariant
                self.wf(),
                Parser::moved_on(start, self@),
                init_exprs(start.tokens, start.pos, Seq::empty()) == init_exprs(
                    self@.tokens,
                    self@.pos,
                    exprs_view(acc@),
                ),
            decreases self@.tokens.len() - self@.pos,
        {
            if self.check(&Token::RBrace) {
                return Ok(acc);
            }
            let before = self.pos;
            let e = self.parse_statement_or_expr()?;
            if self.pos <= before {
                return self.err(String::from_str("Unexpected end of input"));
            }
            proof {
                assert(exprs_view(acc@.push(e)) =~= exprs_view(acc@).push(e@)) by {
                    assert(acc@.push(e).drop_last() =~= acc@);
                }
            }
            acc.push(e);
        }
    }

    /// `start domain Name { exprs }`.
    fn parse_start_domain(&mut self) -> (r: Result<StartDomain, ParseError>)
        requires
            old(self).wf(),
        ensures
            final(self).wf(),
            Parser::moved_on(old(self)@, final(self)@),
            start_domain(old(self)@.tokens, old(self)@.pos) == (
                final(self)@.pos,
                outcome(r, |d: StartDomain| d@),
            ),
    {
        reveal(start_domain);
        self.consume(Token::Start)?;
        self.consume(Token::Domain)?;
        let name = self.name_or("Expected domain name", false)?;
        self.consume(Token::LBrace)?;
        let init_state = self.parse_init_exprs()?;
        self.consume(Token::RBrace)?;
        Ok(StartDomain { name, init_state })
    }

    /// `system Name { start domain ... }`.
    #[verifier::loop_isolation(false)]
    fn parse_system(&mut self) -> (r: Result<Statement, ParseError>)
        requires
            old(self).wf(),
        ensures
            final(self).wf(),
            Parser::moved_on(old(self)@, final(self)@),
            system(old(self)@.tokens, old(self)@.pos) == (
                final(self)@.pos,
                outcome(r, |s: Statement| s@),
            ),
    {
        reveal(system);
        let start = self.consume(Token::System)?;
        let name = self.name_or("Expected system name", false)?;
        self.consume(Token::LBrace)?;
        let ghost p3 = self@.pos;
        let mut domains: Vec<StartDomain> = Vec::new();
        assert(domains@.map_values(|d: StartDomain| d@) =~= Seq::empty());
        loop
            invariant
                self.wf(),
                Parser::moved_on(old(self)@, self@),
                p3 <= self@.pos,
                start_domains(self@.tokens, p3, Seq::empty()) == start_domains(
                    self@.tokens,
                    self@.pos,
                    domains@.map_values(|d: StartDomain| d@),
                ),
            decreases self@.tokens.len() - self@.pos,
        {
            if !self.check(&Token::Start) {
                break;
            }
            let before = self.pos;
            let d = self.parse_start_domain()?;
            if self.pos <= before {
                return self.err(String::from_str("Unexpected end of input"));
            }
            assert(domains@.push(d).map_values(|d: StartDomain| d@) =~= domains@.map_values(
                |d: StartDomain| d@,
            ).push(d@));
            domains.push(d);
        }
        let rb = self.consume(Token::RBrace)?;
        Ok(Statement {
            kind: StatementKind::SystemDecl(SystemDecl { name, start_domains: domains }),
            span: join(start, rb),
        })
    }

    /// Parses a whole program: statements up to `EOF`.
    #[verifier::loop_isolation(false)]
    pub fn parse(&mut self) -> (r: Result<Ast, ParseError>)
        requires
            old(self).wf(),
        ensures
            final(self).wf(),
            Parser::moved_on(old(self)@, final(self)@),
            program(old(self)@.tokens, old(self)@.pos) == (
                final(self)@.pos,
                outcome(r, |a: Ast| a@),
            ),
    {
        let ghost p0 = self@.pos;
        let mut stmts: Vec<Statement> = Vec::new();
        assert(stmts@.map_values(|s: Statement| s@) =~= Seq::empty());
        loop
            invariant
                self.wf(),
                Parser::moved_on(old(self)@, self@),
                p0 == old(self)@.pos,
                statements(self@.tokens, p0, Seq::empty()) == statements(
                    self@.tokens,
                    self@.pos,
                    stmts@.map_values(|s: Statement| s@),
                ),
            decreases self@.tokens.len() - self@.pos,
        {
            if self.check(&Token::EOF) {
                break;
            }
            let before = self.pos;
            let t = self.peek().0.copy();
            let s = match t {
                Token::Domain => self.parse_domain()?,
                Token::System => self.parse_system()?,
                Token::Environment => self.parse_environment()?,
                Token::Deploy => self.parse_deploy()?,
                other => {
                    return self.err_token("Unexpected token at top level: ", &other);
                },
            };
            if self.pos <= before {
                return self.err(String::from_str("Unexpected end of input"));
            }
            assert(stmts@.push(s).map_values(|s: Statement| s@) =~= stmts@.map_values(
                |s: Statement| s@,
            ).push(s@));
            stmts.push(s);
        }
        Ok(Ast { statements: stmts })
    }
}

/// The model of a list of configuration entries.
pub open spec fn entries_view(v: Seq<(String, Expr)>) -> Seq<(Seq<char>, SpecExpr)> {
    v.map_values(|c: (String, Expr)| (c.0@, c.1@))
}

/// Parses a list of tokens (as the lexer produces them) into a program.
pub fn parse(input: Vec<(Token, Span)>) -> (r: Result<Ast, ParseError>)
    requires
        input@.len() > 0,
    ensures
        program(tokens_view(input@), 0).1 == outcome(r, |a: Ast| a@),
{
    let mut parser = Parser::new(input);
    parser.parse()
}

/// The text a binary operator is recorded with.
fn operator_str(t: &Token) -> (r: Option<&'static str>)
    ensures
        operator_text(t@) matches Some(s) ==> (r matches Some(x) && x@ == s),
        operator_text(t@) is None ==> r is None,
{
    match t {
        Token::Plus => Some("+"),
        Token::Minus => Some("-"),
        Token::Asterisk => Some("*"),
        Token::Slash => Some("/"),
        Token::Modulo => Some("%"),
        Token::EqualEqual => Some("=="),
        Token::LessThan => Some("<"),
        Token::GreaterThan => Some(">"),
        Token::GTEqual => Some(">="),
        Token::LTEqual => Some("<="),
        Token::Equal => Some("="),
        _ => None,
    }
}

} // verus!
