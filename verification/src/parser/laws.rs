//! What every successful expression parse satisfies: its span runs from the
//! first token it reads to the last, and it stops before a token that does not
//! bind more tightly than its level.
use crate::ast::{SpecExpr, SpecExprKind};
use crate::lexer::{Span, SpecToken};
use crate::parser::grammar::{
    arguments, block, consume, expr, expr_at_end, joined, next, operator_text, operators,
    operators_at_end, precedence_of, send_call, span_at, tok, within, word, SpecParseError, Toks,
};
use crate::parser::grammar::atom;
use crate::parser::statements::{domain_item, domain_items, goal, DomainBody};
use crate::ast::SpecGoalDecl;
use crate::lexer::fixed_text;
use vstd::prelude::*;

verus! {

/// A span joined with itself is itself.
pub proof fn lemma_joined_self(s: Span)
    ensures
        joined(s, s) == s,
{
}

/// Joining with a joined span keeps the start of the first and the end of the last.
pub proof fn lemma_joined_joined(a: Span, b: Span, c: Span)
    ensures
        joined(joined(a, b), c) == joined(a, c),
        joined(a, joined(b, c)) == joined(a, c),
{
}

/// The token read last before the position after `x` is the token at `x`.
pub proof fn lemma_span_before_next(ts: Toks, x: int)
    requires
        ts.len() > 0,
        0 <= x,
    ensures
        x <= next(ts, x),
        1 <= next(ts, x) || ts.len() == 0,
        span_at(ts, next(ts, x) - 1) == span_at(ts, x),
{
}

/// What a successful `send(..)` or `send_high(..)` call reads: its span runs
/// from the keyword's span `s0` to the last token read.
pub proof fn lemma_send_call_span(ts: Toks, p: int, s0: Span, high: bool)
    requires
        ts.len() > 0,
        0 <= p,
    ensures
        send_call(ts, p, s0, high).1 is Ok ==> p <= send_call(ts, p, s0, high).0 && (send_call(
            ts,
            p,
            s0,
            high,
        ).1->Ok_0).span == joined(s0, span_at(ts, send_call(ts, p, s0, high).0 - 1)),
{
    let (p1, r1) = consume(ts, p, SpecToken::LParen);
    if r1 is Ok {
        let p2 = next(ts, p1);
        if word(tok(ts, p1)) is Some {
            let (p3, r3) = consume(ts, p2, SpecToken::Comma);
            if r3 is Ok {
                let p4 = next(ts, p3);
                if word(tok(ts, p3)) is Some {
                    lemma_span_before_next(ts, p4);
                }
            }
        }
    }
}

/// The operator loop extends `left`, whose span runs from `first` to the token
/// before `p`: the result's span runs from `first` to the last token read, and
/// the loop stops at a token that binds no more tightly than `prec`.
pub proof fn lemma_operators_span(ts: Toks, p: int, prec: u8, left: SpecExpr, first: Span)
    requires
        ts.len() > 0,
        1 <= p,
        left.span == joined(first, span_at(ts, p - 1)),
    ensures
        operators(ts, p, prec, left).1 is Ok ==> p <= operators(ts, p, prec, left).0 && (operators(
            ts,
            p,
            prec,
            left,
        ).1->Ok_0).span == joined(first, span_at(ts, operators(ts, p, prec, left).0 - 1))
            && precedence_of(tok(ts, operators(ts, p, prec, left).0)) <= prec,
    decreases ts.len() - p, 1int,
{
    if p < ts.len() {
        let t = tok(ts, p);
        if prec < precedence_of(t) {
            let q = p + 1;
            if t == SpecToken::LParen {
                let (q1, r1) = arguments(ts, q);
                if within(ts, q, q1) && r1 is Ok {
                    let (q2, r2) = consume(ts, q1, SpecToken::RParen);
                    if r2 is Ok {
                        lemma_span_before_next(ts, q1);
                        match left.kind {
                            SpecExprKind::Ident(function) => {
                                let rp = r2->Ok_0;
                                let e = SpecExpr {
                                    kind: SpecExprKind::Call { function, arguments: r1->Ok_0 },
                                    span: joined(left.span, rp),
                                };
                                lemma_joined_joined(first, span_at(ts, p - 1), rp);
                                lemma_operators_span(ts, q2, prec, e, first);
                            },
                            _ => {},
                        }
                    }
                }
            } else if operator_text(t) is Some {
                let op = operator_text(t)->Some_0;
                let right_prec: u8 = if t == SpecToken::Equal {
                    0
                } else {
                    precedence_of(t)
                };
                let (q1, r1) = expr(ts, q, right_prec);
                if within(ts, q, q1) && r1 is Ok {
                    let right = r1->Ok_0;
                    lemma_expr_span(ts, q, right_prec);
                    let span = joined(left.span, right.span);
                    lemma_joined_joined(first, span_at(ts, p - 1), right.span);
                    assert(span == joined(first, span_at(ts, q1 - 1))) by {
                        lemma_joined_joined(first, span_at(ts, q), span_at(ts, q1 - 1));
                    }
                    if t == SpecToken::Equal {
                        match left.kind {
                            SpecExprKind::Ident(target) => {
                                let e = SpecExpr {
                                    kind: SpecExprKind::Assignment { target, value: Box::new(right) },
                                    span,
                                };
                                lemma_operators_span(ts, q1, prec, e, first);
                            },
                            _ => {},
                        }
                    } else {
                        let e = SpecExpr {
                            kind: SpecExprKind::BinaryOp {
                                left: Box::new(left),
                                op,
                                right: Box::new(right),
                            },
                            span,
                        };
                        lemma_operators_span(ts, q1, prec, e, first);
                    }
                }
            }
        }
    }
}

/// A successful expression from `p` runs from the token at `p` to the last
/// token it reads, and stops at a token that binds no more tightly than `prec`.
pub proof fn lemma_expr_span(ts: Toks, p: int, prec: u8)
    requires
        ts.len() > 0,
        0 <= p,
    ensures
        expr(ts, p, prec).1 is Ok ==> p <= expr(ts, p, prec).0 && (p < ts.len() ==> p < expr(ts, p, prec).0)
            && (expr(ts, p, prec).1->Ok_0).span
            == joined(span_at(ts, p), span_at(ts, expr(ts, p, prec).0 - 1)) && precedence_of(
            tok(ts, expr(ts, p, prec).0),
        ) <= prec,
    decreases ts.len() - p, 2int,
{
    if p >= ts.len() {
        let (q, r) = expr_at_end(ts, p);
        lemma_joined_self(span_at(ts, p));
        lemma_send_call_span(ts, p, span_at(ts, p), false);
        lemma_send_call_span(ts, p, span_at(ts, p), true);
        assert(span_at(ts, p - 1) == span_at(ts, p));
    } else {
        let t = tok(ts, p);
        let s0 = span_at(ts, p);
        let q = p + 1;
        lemma_joined_self(s0);
        match crate::parser::grammar::atom(t, s0) {
            Some(e) => {
                lemma_operators_span(ts, q, prec, e, s0);
            },
            None => {
                if t == SpecToken::LParen {
                    let (q1, r1) = expr(ts, q, 0);
                    if within(ts, q, q1) && r1 is Ok {
                        let (q2, r2) = consume(ts, q1, SpecToken::RParen);
                        if r2 is Ok {
                            lemma_span_before_next(ts, q1);
                            let e = SpecExpr { kind: (r1->Ok_0).kind, span: joined(s0, r2->Ok_0) };
                            lemma_operators_span(ts, q2, prec, e, s0);
                        }
                    }
                } else if t == SpecToken::Send || t == SpecToken::SendHigh {
                    let (q1, r1) = send_call(ts, q, s0, t == SpecToken::SendHigh);
                    lemma_send_call_span(ts, q, s0, t == SpecToken::SendHigh);
                    if within(ts, q, q1) && r1 is Ok {
                        lemma_operators_span(ts, q1, prec, r1->Ok_0, s0);
                    }
                } else if t == SpecToken::If || t == SpecToken::While {
                    let (q1, r1) = expr(ts, q, 0);
                    if within(ts, q, q1) && r1 is Ok {
                        let condition = r1->Ok_0;
                        let (q2, r2) = consume(ts, q1, SpecToken::LBrace);
                        if r2 is Ok {
                            let (q3, r3) = block(ts, q2, Seq::empty());
                            if within(ts, q2, q3) && r3 is Ok {
                                let body = r3->Ok_0;
                                let (q4, r4) = consume(ts, q3, SpecToken::RBrace);
                                if r4 is Ok {
                                    lemma_span_before_next(ts, q3);
                                    let e = SpecExpr {
                                        kind: if t == SpecToken::If {
                                            SpecExprKind::If { condition: Box::new(condition), consequence: body }
                                        } else {
                                            SpecExprKind::While { condition: Box::new(condition), body }
                                        },
                                        span: joined(s0, r4->Ok_0),
                                    };
                                    lemma_operators_span(ts, q4, prec, e, s0);
                                }
                            }
                        }
                    }
                }
            },
        }
    }
}

/// An expression's span runs from the first token it reads to the last: where
/// parsing an expression from a token of the list succeeds, reaching `q`, its
/// span starts where the token at `p` starts (its offset, line and column) and
/// is joined to the token at `q - 1`; where the ends do not wrap around, the
/// span ends exactly where that last token ends.
pub proof fn law_expression_span(ts: Toks, p: int, prec: u8)
    requires
        0 <= p < ts.len(),
    ensures
        expr(ts, p, prec).1 is Ok ==> ({
            let (q, r) = expr(ts, p, prec);
            let e = r->Ok_0;
            let first = span_at(ts, p);
            let last = span_at(ts, q - 1);
            &&& p < q
            &&& e.span == joined(first, last)
            &&& e.span.offset == first.offset
            &&& e.span.line == first.line
            &&& e.span.column == first.column
            &&& (first.offset <= last.offset + last.len <= usize::MAX ==> e.span.offset + e.span.len
                == last.offset + last.len)
        }),
{
    lemma_expr_span(ts, p, prec);
}

/// Parsing an expression at level `prec` stops at the first token after it
/// that does not bind more tightly than `prec`: where it succeeds, the token at
/// the position it reaches has precedence at most `prec`.
pub proof fn law_expression_stops(ts: Toks, p: int, prec: u8)
    requires
        ts.len() > 0,
        0 <= p,
    ensures
        expr(ts, p, prec).1 is Ok ==> precedence_of(tok(ts, expr(ts, p, prec).0)) <= prec,
{
    lemma_expr_span(ts, p, prec);
}

/// A binary operator is recorded with the source text of its own token (the
/// text the lexer reads back as that token).
pub proof fn law_operator_text_is_token_text(t: SpecToken)
    ensures
        operator_text(t) is Some ==> operator_text(t)->Some_0 == fixed_text(t),
{
}

/// Whether a token is a binary operator other than assignment.
pub open spec fn is_binary_operator(t: SpecToken) -> bool {
    operator_text(t) is Some && t != SpecToken::Equal
}

/// The operands and operator of a binary operation.
pub open spec fn binary_parts(e: SpecExpr) -> Option<(SpecExpr, Seq<char>, SpecExpr)> {
    match e.kind {
        SpecExprKind::BinaryOp { left, op, right } => Some((*left, op, *right)),
        _ => None,
    }
}

/// How `a op1 b op2 c` groups, for operands that are literals or names and
/// binary operators that both bind more tightly than the level `prec`, before
/// a token that does not: the tighter operator groups first, and of two
/// operators of the same level the left one groups first (left associativity).
pub proof fn law_two_operators_group(ts: Toks, p: int, prec: u8)
    requires
        0 <= p,
        p + 5 < ts.len(),
        atom(tok(ts, p), span_at(ts, p)) is Some,
        atom(tok(ts, p + 2), span_at(ts, p + 2)) is Some,
        atom(tok(ts, p + 4), span_at(ts, p + 4)) is Some,
        is_binary_operator(tok(ts, p + 1)),
        is_binary_operator(tok(ts, p + 3)),
        prec < precedence_of(tok(ts, p + 1)),
        prec < precedence_of(tok(ts, p + 3)),
        precedence_of(tok(ts, p + 5)) <= prec,
    ensures
        expr(ts, p, prec).1 is Ok,
        expr(ts, p, prec).0 == p + 5,
        ({
            let a = atom(tok(ts, p), span_at(ts, p))->Some_0;
            let b = atom(tok(ts, p + 2), span_at(ts, p + 2))->Some_0;
            let c = atom(tok(ts, p + 4), span_at(ts, p + 4))->Some_0;
            let op1 = operator_text(tok(ts, p + 1))->Some_0;
            let op2 = operator_text(tok(ts, p + 3))->Some_0;
            let e = expr(ts, p, prec).1->Ok_0;
            &&& precedence_of(tok(ts, p + 3)) <= precedence_of(tok(ts, p + 1)) ==> binary_parts(e) is Some
                && binary_parts(e)->Some_0.1 == op2 && binary_parts(e)->Some_0.2 == c
                && binary_parts(binary_parts(e)->Some_0.0) == Some((a, op1, b))
            &&& precedence_of(tok(ts, p + 1)) < precedence_of(tok(ts, p + 3)) ==> binary_parts(e) is Some
                && binary_parts(e)->Some_0.0 == a && binary_parts(e)->Some_0.1 == op1
                && binary_parts(binary_parts(e)->Some_0.2) == Some((b, op2, c))
        }),
{
    let t1 = tok(ts, p + 1);
    let t3 = tok(ts, p + 3);
    let a = atom(tok(ts, p), span_at(ts, p))->Some_0;
    let b = atom(tok(ts, p + 2), span_at(ts, p + 2))->Some_0;
    let c = atom(tok(ts, p + 4), span_at(ts, p + 4))->Some_0;
    let op1 = operator_text(t1)->Some_0;
    let op2 = operator_text(t3)->Some_0;
    let l1 = precedence_of(t1);
    let l3 = precedence_of(t3);
    assert(t1 != SpecToken::LParen && t3 != SpecToken::LParen);
    assert(expr(ts, p, prec) == operators(ts, p + 1, prec, a));
    // The operand after the second operator stops at the token after it.
    assert(operators(ts, p + 5, l3, c) == (p + 5, Ok::<SpecExpr, SpecParseError>(c)));
    assert(expr(ts, p + 4, l3) == operators(ts, p + 5, l3, c));
    if l3 <= l1 {
        assert(operators(ts, p + 3, l1, b) == (p + 3, Ok::<SpecExpr, SpecParseError>(b)));
        assert(expr(ts, p + 2, l1) == operators(ts, p + 3, l1, b));
        let left = SpecExpr {
            kind: SpecExprKind::BinaryOp { left: Box::new(a), op: op1, right: Box::new(b) },
            span: joined(a.span, b.span),
        };
        assert(operators(ts, p + 1, prec, a) == operators(ts, p + 3, prec, left));
        let whole = SpecExpr {
            kind: SpecExprKind::BinaryOp { left: Box::new(left), op: op2, right: Box::new(c) },
            span: joined(left.span, c.span),
        };
        assert(operators(ts, p + 5, prec, whole) == (p + 5, Ok::<SpecExpr, SpecParseError>(whole)));
        assert(operators(ts, p + 3, prec, left) == operators(ts, p + 5, prec, whole));
    } else {
        let right = SpecExpr {
            kind: SpecExprKind::BinaryOp { left: Box::new(b), op: op2, right: Box::new(c) },
            span: joined(b.span, c.span),
        };
        assert(operators(ts, p + 5, l1, right) == (p + 5, Ok::<SpecExpr, SpecParseError>(right)));
        assert(operators(ts, p + 3, l1, b) == operators(ts, p + 5, l1, right));
        assert(expr(ts, p + 2, l1) == operators(ts, p + 3, l1, b));
        let whole = SpecExpr {
            kind: SpecExprKind::BinaryOp { left: Box::new(a), op: op1, right: Box::new(right) },
            span: joined(a.span, right.span),
        };
        assert(operators(ts, p + 5, prec, whole) == (p + 5, Ok::<SpecExpr, SpecParseError>(whole)));
        assert(operators(ts, p + 1, prec, a) == operators(ts, p + 5, prec, whole));
    }
}

/// A domain body with no goals yet, and otherwise as `b`.
pub open spec fn without_goals(b: DomainBody) -> DomainBody {
    DomainBody { goals: Seq::empty(), ..b }
}

/// A goal item of a domain body that is followed by the body's closing brace
/// adds the goal that the goal parser reads there after the goals already
/// declared, and changes nothing else.
pub proof fn law_goal_item_is_kept(ts: Toks, p: int, b: DomainBody)
    requires
        0 <= p,
        tok(ts, p) == SpecToken::Goal,
        goal(ts, p).1 is Ok,
        p < goal(ts, p).0 <= ts.len(),
        tok(ts, goal(ts, p).0) == SpecToken::RBrace,
    ensures
        domain_items(ts, p, b) == (
            goal(ts, p).0,
            Ok::<DomainBody, SpecParseError>(DomainBody { goals: b.goals.push(goal(ts, p).1->Ok_0), ..b }),
        ),
{
    reveal(domain_item);
    let q = goal(ts, p).0;
    let b1 = DomainBody { goals: b.goals.push(goal(ts, p).1->Ok_0), ..b };
    assert(domain_item(ts, p, b) == (q, Ok::<DomainBody, SpecParseError>(b1)));
    assert(domain_items(ts, q, b1) == (q, Ok::<DomainBody, SpecParseError>(b1)));
}

/// Reading one item does not depend on the goals declared before it, and adds
/// after them whatever goal it reads.
proof fn lemma_domain_item_keeps_goals(ts: Toks, p: int, b: DomainBody)
    ensures
        domain_item(ts, p, b).0 == domain_item(ts, p, without_goals(b)).0,
        (domain_item(ts, p, b).1 is Ok) == (domain_item(ts, p, without_goals(b)).1 is Ok),
        domain_item(ts, p, b).1 is Ok ==> (domain_item(ts, p, b).1->Ok_0).goals == b.goals + (domain_item(
            ts,
            p,
            without_goals(b),
        ).1->Ok_0).goals && without_goals(domain_item(ts, p, b).1->Ok_0) == without_goals(
            domain_item(ts, p, without_goals(b)).1->Ok_0,
        ),
{
    reveal(domain_item);
    assert(b.goals + Seq::<SpecGoalDecl>::empty() =~= b.goals);
    if tok(ts, p) == SpecToken::Goal && goal(ts, p).1 is Ok {
        let g = goal(ts, p).1->Ok_0;
        assert(b.goals.push(g) =~= b.goals + Seq::<SpecGoalDecl>::empty().push(g));
    }
}

/// The goals a domain body ends with are the goals declared before its items,
/// followed by those its items declare: reading the items never drops or
/// replaces an earlier goal, and where the reading ends does not depend on them.
pub proof fn law_domain_items_keep_earlier_goals(ts: Toks, p: int, b: DomainBody)
    ensures
        domain_items(ts, p, b).0 == domain_items(ts, p, without_goals(b)).0,
        (domain_items(ts, p, b).1 is Ok) == (domain_items(ts, p, without_goals(b)).1 is Ok),
        domain_items(ts, p, b).1 is Ok ==> (domain_items(ts, p, b).1->Ok_0).goals == b.goals + (domain_items(
            ts,
            p,
            without_goals(b),
        ).1->Ok_0).goals && without_goals(domain_items(ts, p, b).1->Ok_0) == without_goals(
            domain_items(ts, p, without_goals(b)).1->Ok_0,
        ),
    decreases ts.len() - p,
{
    let b0 = without_goals(b);
    assert(b.goals + Seq::<SpecGoalDecl>::empty() =~= b.goals);
    assert(without_goals(b0) == b0);
    let t = tok(ts, p);
    if within(ts, p, p) && t != SpecToken::RBrace && t != SpecToken::EOF {
        lemma_domain_item_keeps_goals(ts, p, b);
        let (q, r) = domain_item(ts, p, b);
        let (q0, r0) = domain_item(ts, p, b0);
        if r is Ok && within(ts, p + 1, q) {
            let c = r->Ok_0;
            let c0 = r0->Ok_0;
            law_domain_items_keep_earlier_goals(ts, q, c);
            law_domain_items_keep_earlier_goals(ts, q, c0);
            let x = domain_items(ts, q, without_goals(c)).1->Ok_0;
            assert(c.goals + x.goals =~= b.goals + (c0.goals + x.goals));
        }
    }
}

} // verus!
