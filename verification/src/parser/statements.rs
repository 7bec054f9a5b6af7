//! What the parser computes for declarations and statements, in the terms of
//! `grammar`.
use crate::ast::{
    scope_named, unknown_scope_message, AuthorityScope, SpecAst, SpecDeployStmt,
    SpecDomainDecl, SpecEnvironmentDecl, SpecExpr, SpecGoalDecl, SpecStartDomain,
    SpecStateField, SpecStatement, SpecStatementKind, SpecSystemDecl, SpecTransitionDecl,
};
use crate::lexer::{token_text, SpecToken};
use crate::parser::grammar::{
    block, consume, expr, fail, ident, joined, next, span_at, stuck, tok, within, Step, Toks,
};
use crate::text::int_text;
use vstd::prelude::*;

verus! {

/// `scope { name }`: the authority scope it names. `missing` is the message when
/// no identifier stands between the braces.
#[verifier::opaque]
pub open spec fn scope_clause(ts: Toks, p: int, missing: Seq<char>) -> Step<AuthorityScope> {
    let (p1, r1) = consume(ts, p, SpecToken::Scope);
    match r1 {
        Err(e) => (p1, Err(e)),
        Ok(_) => {
            let (p2, r2) = consume(ts, p1, SpecToken::LBrace);
            match r2 {
                Err(e) => (p2, Err(e)),
                Ok(_) => {
                    let p3 = next(ts, p2);
                    match ident(tok(ts, p2)) {
                        None => fail(ts, p3, missing),
                        Some(s) => match scope_named(s) {
                            None => fail(ts, p3, unknown_scope_message(s)),
                            Some(a) => {
                                let (p4, r4) = consume(ts, p3, SpecToken::RBrace);
                                match r4 {
                                    Err(e) => (p4, Err(e)),
                                    Ok(_) => (p4, Ok(a)),
                                }
                            },
                        },
                    }
                },
            }
        },
    }
}

/// The names between the braces of a capability list, appended to `caps`;
/// commas between them are skipped.
pub open spec fn capability_names(ts: Toks, p: int, caps: Seq<Seq<char>>) -> Step<Seq<Seq<char>>>
    decreases ts.len() - p,
{
    if !within(ts, p, p) {
        stuck(ts, p)
    } else if tok(ts, p) == SpecToken::RBrace || tok(ts, p) == SpecToken::EOF {
        (p, Ok(caps))
    } else {
        let t = tok(ts, p);
        let q = next(ts, p);
        if ident(t) is None && t != SpecToken::Comma {
            fail(ts, q, "Expected identifier or comma in capability list"@)
        } else if q <= p {
            stuck(ts, q)
        } else {
            capability_names(
                ts,
                q,
                match ident(t) {
                    Some(id) => caps.push(id),
                    None => caps,
                },
            )
        }
    }
}

/// `capability { a, b, ... }`: the names, appended to `caps`.
#[verifier::opaque]
pub open spec fn capability_clause(ts: Toks, p: int, caps: Seq<Seq<char>>) -> Step<Seq<Seq<char>>> {
    let (p1, r1) = consume(ts, p, SpecToken::Capability);
    match r1 {
        Err(e) => (p1, Err(e)),
        Ok(_) => {
            let (p2, r2) = consume(ts, p1, SpecToken::LBrace);
            match r2 {
                Err(e) => (p2, Err(e)),
                Ok(_) => {
                    let (p3, r3) = capability_names(ts, p2, caps);
                    match r3 {
                        Err(e) => (p3, Err(e)),
                        Ok(names) => {
                            let (p4, r4) = consume(ts, p3, SpecToken::RBrace);
                            match r4 {
                                Err(e) => (p4, Err(e)),
                                Ok(_) => (p4, Ok(names)),
                            }
                        },
                    }
                },
            }
        },
    }
}

/// The fields `name: type` of a state block, appended to `fields`.
pub open spec fn state_fields(ts: Toks, p: int, fields: Seq<SpecStateField>) -> Step<Seq<SpecStateField>>
    decreases ts.len() - p,
{
    if !within(ts, p, p) {
        stuck(ts, p)
    } else if tok(ts, p) == SpecToken::RBrace || tok(ts, p) == SpecToken::EOF {
        (p, Ok(fields))
    } else {
        let p1 = next(ts, p);
        match ident(tok(ts, p)) {
            None => fail(ts, p1, "Expected state field name, found "@ + token_text(tok(ts, p))),
            Some(name) => {
                let (p2, r2) = consume(ts, p1, SpecToken::Colon);
                match r2 {
                    Err(e) => (p2, Err(e)),
                    Ok(_) => {
                        let p3 = next(ts, p2);
                        match ident(tok(ts, p2)) {
                            None => fail(
                                ts,
                                p3,
                                "Expected type for field "@ + name + ", found "@ + token_text(
                                    tok(ts, p2),
                                ),
                            ),
                            Some(typ) => if p3 <= p {
                                stuck(ts, p3)
                            } else {
                                state_fields(
                                    ts,
                                    p3,
                                    fields.push(
                                        SpecStateField {
                                            name,
                                            typ,
                                            span: joined(span_at(ts, p), span_at(ts, p2)),
                                        },
                                    ),
                                )
                            },
                        }
                    },
                }
            },
        }
    }
}

/// `state { ... }`: its fields.
#[verifier::opaque]
pub open spec fn state_block(ts: Toks, p: int) -> Step<Seq<SpecStateField>> {
    let (p1, r1) = consume(ts, p, SpecToken::State);
    match r1 {
        Err(e) => (p1, Err(e)),
        Ok(_) => {
            let (p2, r2) = consume(ts, p1, SpecToken::LBrace);
            match r2 {
                Err(e) => (p2, Err(e)),
                Ok(_) => {
                    let (p3, r3) = state_fields(ts, p2, Seq::empty());
                    match r3 {
                        Err(e) => (p3, Err(e)),
                        Ok(fields) => {
                            let (p4, r4) = consume(ts, p3, SpecToken::RBrace);
                            match r4 {
                                Err(e) => (p4, Err(e)),
                                Ok(_) => (p4, Ok(fields)),
                            }
                        },
                    }
                },
            }
        },
    }
}

/// What the clauses of a goal set before its target.
pub struct GoalHead {
    pub scope: Option<AuthorityScope>,
    pub caps: Seq<Seq<char>>,
    pub priority: u8,
}

/// The `scope`, `capability` and `priority` clauses at the head of a goal body.
pub open spec fn goal_clauses(ts: Toks, p: int, head: GoalHead) -> Step<GoalHead>
    decreases ts.len() - p,
{
    let t = tok(ts, p);
    if !within(ts, p, p) {
        stuck(ts, p)
    } else if t == SpecToken::Scope {
        let (q, r) = scope_clause(ts, p, "Expected identifier in goal scope"@);
        match r {
            Err(e) => (q, Err(e)),
            Ok(a) => if !within(ts, p + 1, q) {
                stuck(ts, q)
            } else {
                goal_clauses(ts, q, GoalHead { scope: Some(a), ..head })
            },
        }
    } else if t == SpecToken::Capability {
        let (q, r) = capability_clause(ts, p, head.caps);
        match r {
            Err(e) => (q, Err(e)),
            Ok(caps) => if !within(ts, p + 1, q) {
                stuck(ts, q)
            } else {
                goal_clauses(ts, q, GoalHead { caps, ..head })
            },
        }
    } else if t == SpecToken::Priority {
        let q = next(ts, p);
        let q1 = next(ts, q);
        match tok(ts, q) {
            SpecToken::IntLiteral(v) => if v < 0 || v > 255 {
                fail(ts, q1, "Priority must be between 0 and 255, found "@ + int_text(v as int))
            } else if !within(ts, p + 1, q1) {
                stuck(ts, q1)
            } else {
                goal_clauses(ts, q1, GoalHead { priority: v as u8, ..head })
            },
            other => fail(ts, q1, "Expected integer after 'priority', found "@ + token_text(other)),
        }
    } else {
        (p, Ok(head))
    }
}

/// The names of a strategy list, appended to `names`; any other token is skipped.
pub open spec fn strategy_names(ts: Toks, p: int, names: Seq<Seq<char>>) -> Step<Seq<Seq<char>>>
    decreases ts.len() - p,
{
    if !within(ts, p, p) {
        stuck(ts, p)
    } else if tok(ts, p) == SpecToken::RBrace || tok(ts, p) == SpecToken::EOF {
        (p, Ok(names))
    } else {
        let q = next(ts, p);
        if q <= p {
            stuck(ts, q)
        } else {
            strategy_names(
                ts,
                q,
                match ident(tok(ts, p)) {
                    Some(id) => names.push(id),
                    None => names,
                },
            )
        }
    }
}

/// An optional `strategy { ... }` clause: its names, or none when absent.
#[verifier::opaque]
pub open spec fn strategy_clause(ts: Toks, p: int) -> Step<Seq<Seq<char>>> {
    if tok(ts, p) != SpecToken::Strategy {
        (p, Ok(Seq::empty()))
    } else {
        let (p1, r1) = consume(ts, p, SpecToken::Strategy);
        match r1 {
            Err(e) => (p1, Err(e)),
            Ok(_) => {
                let (p2, r2) = consume(ts, p1, SpecToken::LBrace);
                match r2 {
                    Err(e) => (p2, Err(e)),
                    Ok(_) => {
                        let (p3, r3) = strategy_names(ts, p2, Seq::empty());
                        match r3 {
                            Err(e) => (p3, Err(e)),
                            Ok(names) => {
                                let (p4, r4) = consume(ts, p3, SpecToken::RBrace);
                                match r4 {
                                    Err(e) => (p4, Err(e)),
                                    Ok(_) => (p4, Ok(names)),
                                }
                            },
                        }
                    },
                }
            },
        }
    }
}

/// The keyword `target`, or the identifier `predicate`, before a goal's target.
#[verifier::opaque]
pub open spec fn target_keyword(ts: Toks, p: int) -> Step<()> {
    let t = tok(ts, p);
    if t == SpecToken::Target {
        (next(ts, p), Ok(()))
    } else if t == SpecToken::Identifier("predicate"@) {
        (next(ts, p), Ok(()))
    } else {
        fail(ts, p, "Expected 'target' or 'predicate' for goal, found "@ + token_text(t))
    }
}

/// `goal name { clauses target expr strategy }`.
#[verifier::opaque]
pub open spec fn goal(ts: Toks, p: int) -> Step<SpecGoalDecl> {
    let (p1, r1) = consume(ts, p, SpecToken::Goal);
    match r1 {
        Err(e) => (p1, Err(e)),
        Ok(start) => {
            let p2 = next(ts, p1);
            match ident(tok(ts, p1)) {
                None => fail(ts, p2, "Expected goal name, found "@ + token_text(tok(ts, p1))),
                Some(name) => {
                    let (p3, r3) = consume(ts, p2, SpecToken::LBrace);
                    match r3 {
                        Err(e) => (p3, Err(e)),
                        Ok(_) => {
                            let (p4, r4) = goal_clauses(
                                ts,
                                p3,
                                GoalHead { scope: None, caps: Seq::empty(), priority: 1 },
                            );
                            match r4 {
                                Err(e) => (p4, Err(e)),
                                Ok(head) => {
                                    let (p5, r5) = target_keyword(ts, p4);
                                    match r5 {
                                        Err(e) => (p5, Err(e)),
                                        Ok(_) => {
                                            let (p6, r6) = expr(ts, p5, 0);
                                            match r6 {
                                                Err(e) => (p6, Err(e)),
                                                Ok(target) => {
                                                    let (p7, r7) = strategy_clause(ts, p6);
                                                    match r7 {
                                                        Err(e) => (p7, Err(e)),
                                                        Ok(strategy) => {
                                                            let (p8, r8) = consume(
                                                                ts,
                                                                p7,
                                                                SpecToken::RBrace,
                                                            );
                                                            match r8 {
                                                                Err(e) => (p8, Err(e)),
                                                                Ok(rb) => (
                                                                    p8,
                                                                    Ok(
                                                                        SpecGoalDecl {
                                                                            name,
                                                                            scope: head.scope,
                                                                            required_capabilities: head.caps,
                                                                            target,
                                                                            strategy,
                                                                            priority: head.priority,
                                                                            span: joined(start, rb),
                                                                        },
                                                                    ),
                                                                ),
                                                            }
                                                        },
                                                    }
                                                },
                                            }
                                        },
                                    }
                                },
                            }
                        },
                    }
                },
            }
        },
    }
}

/// What the clauses of a transition set before its step.
pub struct TransitionHead {
    pub scope: Option<AuthorityScope>,
    pub caps: Seq<Seq<char>>,
}

/// The `scope` and `capability` clauses at the head of a transition body.
pub open spec fn transition_clauses(ts: Toks, p: int, head: TransitionHead) -> Step<TransitionHead>
    decreases ts.len() - p,
{
    let t = tok(ts, p);
    if !within(ts, p, p) {
        stuck(ts, p)
    } else if t == SpecToken::Scope {
        let (q, r) = scope_clause(ts, p, "Expected identifier in transition scope"@);
        match r {
            Err(e) => (q, Err(e)),
            Ok(a) => if !within(ts, p + 1, q) {
                stuck(ts, q)
            } else {
                transition_clauses(ts, q, TransitionHead { scope: Some(a), ..head })
            },
        }
    } else if t == SpecToken::Capability {
        let (q, r) = capability_clause(ts, p, head.caps);
        match r {
            Err(e) => (q, Err(e)),
            Ok(caps) => if !within(ts, p + 1, q) {
                stuck(ts, q)
            } else {
                transition_clauses(ts, q, TransitionHead { caps, ..head })
            },
        }
    } else {
        (p, Ok(head))
    }
}

/// `transition name { clauses [slice] step { exprs } }`.
#[verifier::opaque]
pub open spec fn transition(ts: Toks, p: int) -> Step<SpecTransitionDecl> {
    let (p1, r1) = consume(ts, p, SpecToken::Transition);
    match r1 {
        Err(e) => (p1, Err(e)),
        Ok(start) => {
            let p2 = next(ts, p1);
            match ident(tok(ts, p1)) {
                None => fail(ts, p2, "Expected transition name, found "@ + token_text(tok(ts, p1))),
                Some(name) => {
                    let (p3, r3) = consume(ts, p2, SpecToken::LBrace);
                    match r3 {
                        Err(e) => (p3, Err(e)),
                        Ok(_) => {
                            let (p4, r4) = transition_clauses(
                                ts,
                                p3,
                                TransitionHead { scope: None, caps: Seq::empty() },
                            );
                            match r4 {
                                Err(e) => (p4, Err(e)),
                                Ok(head) => {
                                    let p5 = if tok(ts, p4) == SpecToken::Slice {
                                        next(ts, p4)
                                    } else {
                                        p4
                                    };
                                    let (p6, r6) = consume(ts, p5, SpecToken::Step);
                                    match r6 {
                                        Err(e) => (p6, Err(e)),
                                        Ok(_) => {
                                            let (p7, r7) = consume(ts, p6, SpecToken::LBrace);
                                            match r7 {
                                                Err(e) => (p7, Err(e)),
                                                Ok(_) => {
                                                    let (p8, r8) = block(ts, p7, Seq::empty());
                                                    match r8 {
                                                        Err(e) => (p8, Err(e)),
                                                        Ok(steps) => {
                                                            let (p9, r9) = consume(
                                                                ts,
                                                                p8,
                                                                SpecToken::RBrace,
                                                            );
                                                            match r9 {
                                                                Err(e) => (p9, Err(e)),
                                                                Ok(_) => {
                                                                    let (p10, r10) = consume(
                                                                        ts,
                                                                        p9,
                                                                        SpecToken::RBrace,
                                                                    );
                                                                    match r10 {
                                                                        Err(e) => (p10, Err(e)),
                                                                        Ok(rb) => (
                                                                            p10,
                                                                            Ok(
                                                                                SpecTransitionDecl {
                                                                                    name,
                                                                                    scope: head.scope,
                                                                                    required_capabilities: head.caps,
                                                                                    slice_step: steps,
                                                                                    span: joined(start, rb),
                                                                                },
                                                                            ),
                                                                        ),
                                                                    }
                                                                },
                                                            }
                                                        },
                                                    }
                                                },
                                            }
                                        },
                                    }
                                },
                            }
                        },
                    }
                },
            }
        },
    }
}

/// What the body of a domain declares so far.
pub struct DomainBody {
    pub scope: Option<AuthorityScope>,
    pub caps: Seq<Seq<char>>,
    pub state: Seq<SpecStateField>,
    pub goals: Seq<SpecGoalDecl>,
    pub transitions: Seq<SpecTransitionDecl>,
}

/// One item of a domain body: a scope, a capability list, a state block (which
/// replaces an earlier one), a goal or a transition.
#[verifier::opaque]
pub open spec fn domain_item(ts: Toks, p: int, body: DomainBody) -> Step<DomainBody> {
    match tok(ts, p) {
        SpecToken::Scope => {
            let (q, r) = scope_clause(ts, p, "Expected identifier in domain scope"@);
            (q, match r { Err(e) => Err(e), Ok(a) => Ok(DomainBody { scope: Some(a), ..body }) })
        },
        SpecToken::Capability => {
            let (q, r) = capability_clause(ts, p, body.caps);
            (q, match r { Err(e) => Err(e), Ok(caps) => Ok(DomainBody { caps, ..body }) })
        },
        SpecToken::State => {
            let (q, r) = state_block(ts, p);
            (q, match r { Err(e) => Err(e), Ok(state) => Ok(DomainBody { state, ..body }) })
        },
        SpecToken::Goal => {
            let (q, r) = goal(ts, p);
            (
                q,
                match r {
                    Err(e) => Err(e),
                    Ok(g) => Ok(DomainBody { goals: body.goals.push(g), ..body }),
                },
            )
        },
        SpecToken::Transition => {
            let (q, r) = transition(ts, p);
            (
                q,
                match r {
                    Err(e) => Err(e),
                    Ok(x) => Ok(DomainBody { transitions: body.transitions.push(x), ..body }),
                },
            )
        },
        _ => fail(ts, p, "Unexpected token in domain body: "@ + token_text(tok(ts, p))),
    }
}

/// The items of a domain body, up to its closing brace or the end of input.
pub open spec fn domain_items(ts: Toks, p: int, body: DomainBody) -> Step<DomainBody>
    decreases ts.len() - p,
{
    let t = tok(ts, p);
    if !within(ts, p, p) {
        stuck(ts, p)
    } else if t == SpecToken::RBrace || t == SpecToken::EOF {
        (p, Ok(body))
    } else {
        let (q, r) = domain_item(ts, p, body);
        match r {
            Err(e) => (q, Err(e)),
            Ok(b) => if !within(ts, p + 1, q) {
                stuck(ts, q)
            } else {
                domain_items(ts, q, b)
            },
        }
    }
}

/// `domain Name { items }`.
#[verifier::opaque]
pub open spec fn domain(ts: Toks, p: int) -> Step<SpecStatement> {
    let (p1, r1) = consume(ts, p, SpecToken::Domain);
    match r1 {
        Err(e) => (p1, Err(e)),
        Ok(start) => {
            let p2 = next(ts, p1);
            match ident(tok(ts, p1)) {
                None => fail(
                    ts,
                    p2,
                    "Expected identifier after 'domain', found "@ + token_text(tok(ts, p1)),
                ),
                Some(name) => {
                    let (p3, r3) = consume(ts, p2, SpecToken::LBrace);
                    match r3 {
                        Err(e) => (p3, Err(e)),
                        Ok(_) => {
                            let (p4, r4) = domain_items(
                                ts,
                                p3,
                                DomainBody {
                                    scope: None,
                                    caps: Seq::empty(),
                                    state: Seq::empty(),
                                    goals: Seq::empty(),
                                    transitions: Seq::empty(),
                                },
                            );
                            match r4 {
                                Err(e) => (p4, Err(e)),
                                Ok(body) => {
                                    let (p5, r5) = consume(ts, p4, SpecToken::RBrace);
                                    match r5 {
                                        Err(e) => (p5, Err(e)),
                                        Ok(rb) => (
                                            p5,
                                            Ok(
                                                SpecStatement {
                                                    kind: SpecStatementKind::DomainDecl(
                                                        SpecDomainDecl {
                                                            name,
                                                            scope: body.scope,
                                                            required_capabilities: body.caps,
                                                            state: body.state,
                                                            goals: body.goals,
                                                            transitions: body.transitions,
                                                            invariants: Seq::empty(),
                                                        },
                                                    ),
                                                    span: joined(start, rb),
                                                },
                                            ),
                                        ),
                                    }
                                },
                            }
                        },
                    }
                },
            }
        },
    }
}

/// The `key = expr` entries of an environment, up to its closing brace or the
/// end of the token list, appended to `entries`.
pub open spec fn configurations(ts: Toks, p: int, entries: Seq<(Seq<char>, SpecExpr)>) -> Step<
    Seq<(Seq<char>, SpecExpr)>,
>
    decreases ts.len() - p,
{
    if !within(ts, p, p) {
        stuck(ts, p)
    } else if tok(ts, p) == SpecToken::RBrace || p >= ts.len() {
        (p, Ok(entries))
    } else {
        let p1 = next(ts, p);
        match ident(tok(ts, p)) {
            None => fail(ts, p1, "Expected configuration key"@),
            Some(key) => {
                let (p2, r2) = consume(ts, p1, SpecToken::Equal);
                match r2 {
                    Err(e) => (p2, Err(e)),
                    Ok(_) => {
                        let (p3, r3) = expr(ts, p2, 0);
                        match r3 {
                            Err(e) => (p3, Err(e)),
                            Ok(value) => if !within(ts, p + 1, p3) {
                                stuck(ts, p3)
                            } else {
                                configurations(ts, p3, entries.push((key, value)))
                            },
                        }
                    },
                }
            },
        }
    }
}

/// `environment Name { key = expr ... }`.
#[verifier::opaque]
pub open spec fn environment(ts: Toks, p: int) -> Step<SpecStatement> {
    let (p1, r1) = consume(ts, p, SpecToken::Environment);
    match r1 {
        Err(e) => (p1, Err(e)),
        Ok(start) => {
            let p2 = next(ts, p1);
            match ident(tok(ts, p1)) {
                None => fail(ts, p2, "Expected environment name"@),
                Some(name) => {
                    let (p3, r3) = consume(ts, p2, SpecToken::LBrace);
                    match r3 {
                        Err(e) => (p3, Err(e)),
                        Ok(_) => {
                            let (p4, r4) = configurations(ts, p3, Seq::empty());
                            match r4 {
                                Err(e) => (p4, Err(e)),
                                Ok(entries) => {
                                    let (p5, r5) = consume(ts, p4, SpecToken::RBrace);
                                    match r5 {
                                        Err(e) => (p5, Err(e)),
                                        Ok(rb) => (
                                            p5,
                                            Ok(
                                                SpecStatement {
                                                    kind: SpecStatementKind::EnvironmentDecl(
                                                        SpecEnvironmentDecl {
                                                            name,
                                                            configurations: entries,
                                                            available_capabilities: Seq::empty(),
                                                            scope_level: None,
                                                        },
                                                    ),
                                                    span: joined(start, rb),
                                                },
                                            ),
                                        ),
                                    }
                                },
                            }
                        },
                    }
                },
            }
        },
    }
}

/// `deploy [service] Name to Env` (the word `to` as keyword or identifier).
#[verifier::opaque]
pub open spec fn deploy(ts: Toks, p: int) -> Step<SpecStatement> {
    let (p1, r1) = consume(ts, p, SpecToken::Deploy);
    match r1 {
        Err(e) => (p1, Err(e)),
        Ok(start) => {
            let p2 = next(ts, p1);
            let (p3, r3): Step<Seq<char>> = match ident(tok(ts, p1)) {
                None => fail(ts, p2, "Expected 'service' or identifier after 'deploy'"@),
                Some(id) => if id == "service"@ {
                    let p3 = next(ts, p2);
                    match ident(tok(ts, p2)) {
                        None => fail(ts, p3, "Expected service name after 'deploy service'"@),
                        Some(svc) => (p3, Ok(svc)),
                    }
                } else {
                    (p2, Ok(id))
                },
            };
            match r3 {
                Err(e) => (p3, Err(e)),
                Ok(service) => {
                    let p4 = next(ts, p3);
                    let t = tok(ts, p3);
                    if !(t == SpecToken::To || t == SpecToken::Identifier("to"@)) {
                        fail(ts, p4, "Expected 'to' in deploy statement"@)
                    } else {
                        let p5 = next(ts, p4);
                        match ident(tok(ts, p4)) {
                            None => fail(ts, p5, "Expected target environment name"@),
                            Some(target_environment) => (
                                p5,
                                Ok(
                                    SpecStatement {
                                        kind: SpecStatementKind::DeployStmt(
                                            SpecDeployStmt { service, target_environment },
                                        ),
                                        span: joined(start, span_at(ts, p4)),
                                    },
                                ),
                            ),
                        }
                    }
                },
            }
        },
    }
}

/// The expressions of a start block, up to its closing brace.
pub open spec fn init_exprs(ts: Toks, p: int, acc: Seq<SpecExpr>) -> Step<Seq<SpecExpr>>
    decreases ts.len() - p,
{
    if !within(ts, p, p) {
        stuck(ts, p)
    } else if tok(ts, p) == SpecToken::RBrace {
        (p, Ok(acc))
    } else {
        let (q, r) = expr(ts, p, 0);
        match r {
            Err(e) => (q, Err(e)),
            Ok(e) => if !within(ts, p + 1, q) {
                stuck(ts, q)
            } else {
                init_exprs(ts, q, acc.push(e))
            },
        }
    }
}

/// `start domain Name { exprs }`.
#[verifier::opaque]
pub open spec fn start_domain(ts: Toks, p: int) -> Step<SpecStartDomain> {
    let (p1, r1) = consume(ts, p, SpecToken::Start);
    match r1 {
        Err(e) => (p1, Err(e)),
        Ok(_) => {
            let (p2, r2) = consume(ts, p1, SpecToken::Domain);
            match r2 {
                Err(e) => (p2, Err(e)),
                Ok(_) => {
                    let p3 = next(ts, p2);
                    match ident(tok(ts, p2)) {
                        None => fail(ts, p3, "Expected domain name"@),
                        Some(name) => {
                            let (p4, r4) = consume(ts, p3, SpecToken::LBrace);
                            match r4 {
                                Err(e) => (p4, Err(e)),
                                Ok(_) => {
                                    let (p5, r5) = init_exprs(ts, p4, Seq::empty());
                                    match r5 {
                                        Err(e) => (p5, Err(e)),
                                        Ok(init_state) => {
                                            let (p6, r6) = consume(ts, p5, SpecToken::RBrace);
                                            match r6 {
                                                Err(e) => (p6, Err(e)),
                                                Ok(_) => (
                                                    p6,
                                                    Ok(SpecStartDomain { name, init_state }),
                                                ),
                                            }
                                        },
                                    }
                                },
                            }
                        },
                    }
                },
            }
        },
    }
}

/// The `start domain` blocks of a system, appended to `acc`.
pub open spec fn start_domains(ts: Toks, p: int, acc: Seq<SpecStartDomain>) -> Step<Seq<SpecStartDomain>>
    decreases ts.len() - p,
{
    if !within(ts, p, p) {
        stuck(ts, p)
    } else if tok(ts, p) != SpecToken::Start {
        (p, Ok(acc))
    } else {
        let (q, r) = start_domain(ts, p);
        match r {
            Err(e) => (q, Err(e)),
            Ok(d) => if !within(ts, p + 1, q) {
                stuck(ts, q)
            } else {
                start_domains(ts, q, acc.push(d))
            },
        }
    }
}

/// `system Name { start domain ... }`.
#[verifier::opaque]
pub open spec fn system(ts: Toks, p: int) -> Step<SpecStatement> {
    let (p1, r1) = consume(ts, p, SpecToken::System);
    match r1 {
        Err(e) => (p1, Err(e)),
        Ok(start) => {
            let p2 = next(ts, p1);
            match ident(tok(ts, p1)) {
                None => fail(ts, p2, "Expected system name"@),
                Some(name) => {
                    let (p3, r3) = consume(ts, p2, SpecToken::LBrace);
                    match r3 {
                        Err(e) => (p3, Err(e)),
                        Ok(_) => {
                            let (p4, r4) = start_domains(ts, p3, Seq::empty());
                            match r4 {
                                Err(e) => (p4, Err(e)),
                                Ok(domains) => {
                                    let (p5, r5) = consume(ts, p4, SpecToken::RBrace);
                                    match r5 {
                                        Err(e) => (p5, Err(e)),
                                        Ok(rb) => (
                                            p5,
                                            Ok(
                                                SpecStatement {
                                                    kind: SpecStatementKind::SystemDecl(
                                                        SpecSystemDecl {
                                                            name,
                                                            start_domains: domains,
                                                        },
                                                    ),
                                                    span: joined(start, rb),
                                                },
                                            ),
                                        ),
                                    }
                                },
                            }
                        },
                    }
                },
            }
        },
    }
}

/// The top-level statements up to `EOF`, appended to `acc`.
pub open spec fn statements(ts: Toks, p: int, acc: Seq<SpecStatement>) -> Step<Seq<SpecStatement>>
    decreases ts.len() - p,
{
    let t = tok(ts, p);
    if !within(ts, p, p) {
        stuck(ts, p)
    } else if t == SpecToken::EOF {
        (p, Ok(acc))
    } else {
        let (q, r): Step<SpecStatement> = match t {
            SpecToken::Domain => domain(ts, p),
            SpecToken::System => system(ts, p),
            SpecToken::Environment => environment(ts, p),
            SpecToken::Deploy => deploy(ts, p),
            _ => fail(ts, p, "Unexpected token at top level: "@ + token_text(t)),
        };
        match r {
            Err(e) => (q, Err(e)),
            Ok(s) => if !within(ts, p + 1, q) {
                stuck(ts, q)
            } else {
                statements(ts, q, acc.push(s))
            },
        }
    }
}

/// A whole program: its statements up to `EOF`.
pub open spec fn program(ts: Toks, p: int) -> Step<SpecAst> {
    let (q, r) = statements(ts, p, Seq::empty());
    (q, match r { Err(e) => Err(e), Ok(statements) => Ok(SpecAst { statements }) })
}

/// A program parses only up to `EOF`: where the statements succeed, the
/// position they stop at holds `EOF`, and lies within the token list.
pub proof fn lemma_statements_stop_at_eof(ts: Toks, p: int, acc: Seq<SpecStatement>)
    ensures
        statements(ts, p, acc).1 is Ok ==> tok(ts, statements(ts, p, acc).0) == SpecToken::EOF
            && within(ts, p, statements(ts, p, acc).0),
    decreases ts.len() - p,
{
    let t = tok(ts, p);
    if within(ts, p, p) && t != SpecToken::EOF {
        let (q, r): Step<SpecStatement> = match t {
            SpecToken::Domain => domain(ts, p),
            SpecToken::System => system(ts, p),
            SpecToken::Environment => environment(ts, p),
            SpecToken::Deploy => deploy(ts, p),
            _ => fail(ts, p, "Unexpected token at top level: "@ + token_text(t)),
        };
        if r is Ok && within(ts, p + 1, q) {
            lemma_statements_stop_at_eof(ts, q, acc.push(r->Ok_0));
        }
    }
}

/// A successful parse of a whole program reads up to the `EOF` token.
pub proof fn lemma_program_reads_to_eof(ts: Toks)
    ensures
        program(ts, 0).1 is Ok ==> tok(ts, program(ts, 0).0) == SpecToken::EOF && 0 <= program(ts, 0).0
            <= ts.len(),
{
    lemma_statements_stop_at_eof(ts, 0, Seq::empty());
}

} // verus!
