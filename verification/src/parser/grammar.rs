//! What the parser computes, stated over token sequences.
//!
//! Each function takes the token list (each token with its span) and the
//! position the parser stands at, and gives the position it reaches together
//! with the parsed value or the error it reports. Reading past the last token
//! yields the last token again, as the parser's `peek` does. Where a repetition
//! reaches the end of a token list that does not end in `EOF` without consuming
//! anything, repeating it would never end; the parser reports
//! `Unexpected end of input` there instead.
use crate::ast::{SpecExpr, SpecExprKind};
use crate::lexer::{token_text, Span, SpecToken};
use crate::text::nat_text;
use vstd::prelude::*;

verus! {

/// The span that a diagnostic points at: a byte offset and a byte length.
#[derive(Clone, Copy, Debug, PartialEq, Eq, Structural)]
pub struct ErrorSpan {
    pub offset: usize,
    pub len: usize,
}

/// The model of a parse error: its message and the span it points at.
pub struct SpecParseError {
    pub message: Seq<char>,
    pub span: ErrorSpan,
}

/// A token list as the parser sees it.
pub type Toks = Seq<(SpecToken, Span)>;

/// The outcome of a parsing step: the position reached and the value or the error.
pub type Step<T> = (int, Result<T, SpecParseError>);

/// The token (with its span) at position `p`; past the end, the last token.
pub open spec fn peek(ts: Toks, p: int) -> (SpecToken, Span) {
    if 0 <= p < ts.len() {
        ts[p]
    } else {
        ts.last()
    }
}

pub open spec fn tok(ts: Toks, p: int) -> SpecToken {
    peek(ts, p).0
}

pub open spec fn span_at(ts: Toks, p: int) -> Span {
    peek(ts, p).1
}

/// The position after consuming one token: one further, or unchanged at the end.
pub open spec fn next(ts: Toks, p: int) -> int {
    if p < ts.len() {
        p + 1
    } else {
        p
    }
}

/// Whether `q` lies between `p` and the end of the token list.
pub open spec fn within(ts: Toks, p: int, q: int) -> bool {
    p <= q <= ts.len()
}

/// The error with the given message, pointing at the token at `p`.
pub open spec fn error_at(ts: Toks, p: int, message: Seq<char>) -> SpecParseError {
    SpecParseError {
        message,
        span: ErrorSpan { offset: span_at(ts, p).offset, len: span_at(ts, p).len },
    }
}

/// Failing at `p` with the given message.
pub open spec fn fail<T>(ts: Toks, p: int, message: Seq<char>) -> Step<T> {
    (p, Err(error_at(ts, p, message)))
}

/// The error for a repetition that would never end.
pub open spec fn stuck<T>(ts: Toks, p: int) -> Step<T> {
    fail(ts, p, "Unexpected end of input"@)
}

/// The message for a token other than the expected one.
pub open spec fn expected_message(ts: Toks, p: int, expected: SpecToken) -> Seq<char> {
    "Syntax Error at line "@ + nat_text(span_at(ts, p).line as nat) + " col "@ + nat_text(
        span_at(ts, p).column as nat,
    ) + ": Expected "@ + token_text(expected) + ", but found "@ + token_text(tok(ts, p))
}

/// Consumes the expected token, giving its span, or fails where it stands.
pub open spec fn consume(ts: Toks, p: int, expected: SpecToken) -> Step<Span> {
    if tok(ts, p) == expected {
        (next(ts, p), Ok(span_at(ts, p)))
    } else {
        fail(ts, p, expected_message(ts, p, expected))
    }
}

/// The span from the start of `first` to the end of `last` (offsets in wrapping arithmetic).
pub open spec fn joined(first: Span, last: Span) -> Span {
    Span {
        offset: first.offset,
        len: vstd::wrapping::usize_specs::wrapping_sub(
            vstd::wrapping::usize_specs::wrapping_add(last.offset, last.len),
            first.offset,
        ),
        line: first.line,
        column: first.column,
    }
}

/// The binding strength of a token that continues an expression; 0 for any other token.
pub open spec fn precedence_of(t: SpecToken) -> u8 {
    match t {
        SpecToken::Equal => 1,
        SpecToken::EqualEqual | SpecToken::NotEqual | SpecToken::LessThan
        | SpecToken::GreaterThan | SpecToken::LTEqual | SpecToken::GTEqual => 2,
        SpecToken::Plus | SpecToken::Minus => 3,
        SpecToken::Asterisk | SpecToken::Slash | SpecToken::Modulo => 4,
        SpecToken::LParen => 6,
        _ => 0,
    }
}

/// The operator text that a binary operator token is recorded with.
pub open spec fn operator_text(t: SpecToken) -> Option<Seq<char>> {
    match t {
        SpecToken::Plus => Some("+"@),
        SpecToken::Minus => Some("-"@),
        SpecToken::Asterisk => Some("*"@),
        SpecToken::Slash => Some("/"@),
        SpecToken::Modulo => Some("%"@),
        SpecToken::EqualEqual => Some("=="@),
        SpecToken::LessThan => Some("<"@),
        SpecToken::GreaterThan => Some(">"@),
        SpecToken::GTEqual => Some(">="@),
        SpecToken::LTEqual => Some("<="@),
        SpecToken::Equal => Some("="@),
        _ => None,
    }
}

/// The expression that a literal or identifier token stands for on its own.
pub open spec fn atom(t: SpecToken, s: Span) -> Option<SpecExpr> {
    match t {
        SpecToken::IntLiteral(v) => Some(SpecExpr { kind: SpecExprKind::IntLiteral(v), span: s }),
        SpecToken::StringLiteral(v) => Some(
            SpecExpr { kind: SpecExprKind::StringLiteral(v), span: s },
        ),
        SpecToken::Identifier(v) => Some(SpecExpr { kind: SpecExprKind::Ident(v), span: s }),
        SpecToken::True => Some(SpecExpr { kind: SpecExprKind::BoolLiteral(true), span: s }),
        SpecToken::False => Some(SpecExpr { kind: SpecExprKind::BoolLiteral(false), span: s }),
        _ => None,
    }
}

/// The name or text carried by an identifier or a string literal.
pub open spec fn word(t: SpecToken) -> Option<Seq<char>> {
    match t {
        SpecToken::Identifier(v) => Some(v),
        SpecToken::StringLiteral(v) => Some(v),
        _ => None,
    }
}

/// The name carried by an identifier.
pub open spec fn ident(t: SpecToken) -> Option<Seq<char>> {
    match t {
        SpecToken::Identifier(v) => Some(v),
        _ => None,
    }
}

/// `send(target, message)` or `send_high(target, message)` after its keyword
/// (whose span is `s0`), `high` telling which.
pub open spec fn send_call(ts: Toks, p: int, s0: Span, high: bool) -> Step<SpecExpr> {
    let name: Seq<char> = if high { "send_high"@ } else { "send"@ };
    let (p1, r1) = consume(ts, p, SpecToken::LParen);
    match r1 {
        Err(e) => (p1, Err(e)),
        Ok(_) => {
            let p2 = next(ts, p1);
            match word(tok(ts, p1)) {
                None => fail(
                    ts,
                    p2,
                    "Expected string/ident target for "@ + name + ", got "@ + token_text(tok(ts, p1)),
                ),
                Some(target) => {
                    let (p3, r3) = consume(ts, p2, SpecToken::Comma);
                    match r3 {
                        Err(e) => (p3, Err(e)),
                        Ok(_) => {
                            let p4 = next(ts, p3);
                            match word(tok(ts, p3)) {
                                None => fail(
                                    ts,
                                    p4,
                                    "Expected string/ident msg for "@ + name + ", got "@
                                        + token_text(tok(ts, p3)),
                                ),
                                Some(message) => {
                                    let (p5, r5) = consume(ts, p4, SpecToken::RParen);
                                    match r5 {
                                        Err(e) => (p5, Err(e)),
                                        Ok(rp) => (
                                            p5,
                                            Ok(
                                                SpecExpr {
                                                    kind: if high {
                                                        SpecExprKind::SendHigh { target, message }
                                                    } else {
                                                        SpecExprKind::Send { target, message }
                                                    },
                                                    span: joined(s0, rp),
                                                },
                                            ),
                                        ),
                                    }
                                },
                            }
                        },
                    }
                },
            }
        },
    }
}

/// An expression read when the parser already stands past the last token: the
/// last token is read again and again, so only a literal or identifier makes an
/// expression; a parenthesis, `if` or `while` would start the same expression
/// forever.
pub open spec fn expr_at_end(ts: Toks, p: int) -> Step<SpecExpr> {
    let t = tok(ts, p);
    match atom(t, span_at(ts, p)) {
        Some(e) => (p, Ok(e)),
        None => match t {
            SpecToken::LParen | SpecToken::If | SpecToken::While => stuck(ts, p),
            SpecToken::Send => send_call(ts, p, span_at(ts, p), false),
            SpecToken::SendHigh => send_call(ts, p, span_at(ts, p), true),
            _ => fail(ts, p, "Unexpected token in expression: "@ + token_text(t)),
        },
    }
}

/// The operator loop when the parser stands past the last token.
pub open spec fn operators_at_end(ts: Toks, p: int, prec: u8, left: SpecExpr) -> Step<SpecExpr> {
    let t = tok(ts, p);
    if prec < precedence_of(t) {
        if t == SpecToken::LParen {
            stuck(ts, p)
        } else if operator_text(t) is None {
            fail(ts, p, "Unsupported binary operator: NotEqual"@)
        } else {
            fail(ts, p, "Unexpected token in expression: "@ + token_text(t))
        }
    } else {
        (p, Ok(left))
    }
}

/// An expression whose operators bind more tightly than `prec` (Pratt parsing).
pub open spec fn expr(ts: Toks, p: int, prec: u8) -> Step<SpecExpr>
    decreases ts.len() - p, 2int,
{
    if p >= ts.len() || p < 0 {
        let (q, r) = expr_at_end(ts, p);
        match r {
            Err(e) => (q, Err(e)),
            Ok(left) => operators_at_end(ts, q, prec, left),
        }
    } else {
        let t = tok(ts, p);
        let s0 = span_at(ts, p);
        let q = p + 1;
        match atom(t, s0) {
            Some(e) => operators(ts, q, prec, e),
            None => match t {
                SpecToken::LParen => {
                    let (q1, r1) = expr(ts, q, 0);
                    if !within(ts, q, q1) {
                        stuck(ts, q1)
                    } else {
                        match r1 {
                            Err(e) => (q1, Err(e)),
                            Ok(inner) => {
                                let (q2, r2) = consume(ts, q1, SpecToken::RParen);
                                match r2 {
                                    Err(e) => (q2, Err(e)),
                                    Ok(rp) => operators(
                                        ts,
                                        q2,
                                        prec,
                                        SpecExpr { kind: inner.kind, span: joined(s0, rp) },
                                    ),
                                }
                            },
                        }
                    }
                },
                SpecToken::Send | SpecToken::SendHigh => {
                    let (q1, r1) = send_call(ts, q, s0, t == SpecToken::SendHigh);
                    if !within(ts, q, q1) {
                        stuck(ts, q1)
                    } else {
                        match r1 {
                            Err(e) => (q1, Err(e)),
                            Ok(e) => operators(ts, q1, prec, e),
                        }
                    }
                },
                SpecToken::If | SpecToken::While => {
                    let (q1, r1) = expr(ts, q, 0);
                    if !within(ts, q, q1) {
                        stuck(ts, q1)
                    } else {
                        match r1 {
                            Err(e) => (q1, Err(e)),
                            Ok(condition) => {
                                let (q2, r2) = consume(ts, q1, SpecToken::LBrace);
                                match r2 {
                                    Err(e) => (q2, Err(e)),
                                    Ok(_) => {
                                        let (q3, r3) = block(ts, q2, Seq::empty());
                                        if !within(ts, q2, q3) {
                                            stuck(ts, q3)
                                        } else {
                                            match r3 {
                                                Err(e) => (q3, Err(e)),
                                                Ok(body) => {
                                                    let (q4, r4) = consume(
                                                        ts,
                                                        q3,
                                                        SpecToken::RBrace,
                                                    );
                                                    match r4 {
                                                        Err(e) => (q4, Err(e)),
                                                        Ok(rb) => operators(
                                                            ts,
                                                            q4,
                                                            prec,
                                                            SpecExpr {
                                                                kind: if t == SpecToken::If {
                                                                    SpecExprKind::If {
                                                                        condition: Box::new(
                                                                            condition,
                                                                        ),
                                                                        consequence: body,
                                                                    }
                                                                } else {
                                                                    SpecExprKind::While {
                                                                        condition: Box::new(
                                                                            condition,
                                                                        ),
                                                                        body,
                                                                    }
                                                                },
                                                                span: joined(s0, rb),
                                                            },
                                                        ),
                                                    }
                                                },
                                            }
                                        }
                                    },
                                }
                            },
                        }
                    }
                },
                _ => fail(ts, q, "Unexpected token in expression: "@ + token_text(t)),
            },
        }
    }
}

/// The operator loop of `expr`: while the next token binds more tightly than
/// `prec`, extend `left` by a call, an assignment or a binary operation.
pub open spec fn operators(ts: Toks, p: int, prec: u8, left: SpecExpr) -> Step<SpecExpr>
    decreases ts.len() - p, 1int,
{
    if p >= ts.len() || p < 0 {
        operators_at_end(ts, p, prec, left)
    } else {
        let t = tok(ts, p);
        if !(prec < precedence_of(t)) {
            (p, Ok(left))
        } else {
            let q = p + 1;
            if t == SpecToken::LParen {
                let (q1, r1) = arguments(ts, q);
                if !within(ts, q, q1) {
                    stuck(ts, q1)
                } else {
                    match r1 {
                        Err(e) => (q1, Err(e)),
                        Ok(args) => {
                            let (q2, r2) = consume(ts, q1, SpecToken::RParen);
                            match r2 {
                                Err(e) => (q2, Err(e)),
                                Ok(rp) => match left.kind {
                                    SpecExprKind::Ident(function) => operators(
                                        ts,
                                        q2,
                                        prec,
                                        SpecExpr {
                                            kind: SpecExprKind::Call { function, arguments: args },
                                            span: joined(left.span, rp),
                                        },
                                    ),
                                    _ => fail(ts, q2, "Invalid function call target"@),
                                },
                            }
                        },
                    }
                }
            } else {
                match operator_text(t) {
                    None => fail(ts, q, "Unsupported binary operator: NotEqual"@),
                    Some(op) => {
                        let right_prec: u8 = if t == SpecToken::Equal {
                            0
                        } else {
                            precedence_of(t)
                        };
                        let (q1, r1) = expr(ts, q, right_prec);
                        if !within(ts, q, q1) {
                            stuck(ts, q1)
                        } else {
                            match r1 {
                                Err(e) => (q1, Err(e)),
                                Ok(right) => {
                                    let span = joined(left.span, right.span);
                                    if t == SpecToken::Equal {
                                        match left.kind {
                                            SpecExprKind::Ident(target) => operators(
                                                ts,
                                                q1,
                                                prec,
                                                SpecExpr {
                                                    kind: SpecExprKind::Assignment {
                                                        target,
                                                        value: Box::new(right),
                                                    },
                                                    span,
                                                },
                                            ),
                                            _ => fail(ts, q1, "Invalid assignment target"@),
                                        }
                                    } else {
                                        operators(
                                            ts,
                                            q1,
                                            prec,
                                            SpecExpr {
                                                kind: SpecExprKind::BinaryOp {
                                                    left: Box::new(left),
                                                    op,
                                                    right: Box::new(right),
                                                },
                                                span,
                                            },
                                        )
                                    }
                                },
                            }
                        }
                    },
                }
            }
        }
    }
}

/// The expressions of a block, up to its closing brace or the end of input,
/// appended to `acc`.
pub open spec fn block(ts: Toks, p: int, acc: Seq<SpecExpr>) -> Step<Seq<SpecExpr>>
    decreases ts.len() - p, 3int,
{
    if !within(ts, p, p) {
        stuck(ts, p)
    } else if tok(ts, p) == SpecToken::RBrace || tok(ts, p) == SpecToken::EOF {
        (p, Ok(acc))
    } else {
        let (q, r) = expr(ts, p, 0);
        match r {
            Err(e) => (q, Err(e)),
            Ok(e) => if !within(ts, p + 1, q) {
                stuck(ts, q)
            } else {
                block(ts, q, acc.push(e))
            },
        }
    }
}

/// The arguments of a call, after its opening parenthesis.
pub open spec fn arguments(ts: Toks, p: int) -> Step<Seq<SpecExpr>>
    decreases ts.len() - p, 4int,
{
    if !within(ts, p, p) {
        stuck(ts, p)
    } else if tok(ts, p) == SpecToken::RParen {
        (p, Ok(Seq::empty()))
    } else {
        let (q, r) = expr(ts, p, 0);
        if !within(ts, p, q) {
            stuck(ts, q)
        } else {
            match r {
                Err(e) => (q, Err(e)),
                Ok(e) => more_arguments(ts, q, seq![e]),
            }
        }
    }
}

/// Further `, argument` pairs of a call, appended to `acc`.
pub open spec fn more_arguments(ts: Toks, p: int, acc: Seq<SpecExpr>) -> Step<Seq<SpecExpr>>
    decreases ts.len() - p, 3int,
{
    if !within(ts, p, p) {
        stuck(ts, p)
    } else if tok(ts, p) != SpecToken::Comma {
        (p, Ok(acc))
    } else {
        let q = next(ts, p);
        let (q1, r1) = expr(ts, q, 0);
        match r1 {
            Err(e) => (q1, Err(e)),
            Ok(e) => if !within(ts, p + 1, q1) {
                stuck(ts, q1)
            } else {
                more_arguments(ts, q1, acc.push(e))
            },
        }
    }
}

} // verus!
