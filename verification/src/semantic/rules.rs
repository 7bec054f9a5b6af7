//! The validation rules, stated over the model of the syntax tree.
//!
//! Validation runs in three passes over the statements: the first catalogs
//! domains (their state fields, with type and duplicate checks, and their scope
//! limits) and environments; the second checks deployments against that
//! catalog; the third checks every domain's goals, invariants and transitions.
//! The errors of the three passes come in that order.
use crate::ast::{
    AuthorityScope, SpecDomainDecl, SpecExpr, SpecExprKind, SpecGoalDecl, SpecInvariantDecl,
    SpecStateField, SpecStatement, SpecStatementKind, SpecTransitionDecl,
};
use crate::lexer::Span;
use crate::parser::grammar::ErrorSpan;
use crate::semantic::messages::{
    duplicate_field_message, goal_effect_message, goal_escalation_message, goal_scope_message,
    illegal_effect_message, illegal_mutation_message, shell_message, transition_effect_message,
    transition_escalation_message, transition_scope_message, unbounded_loop_message,
    undeclared_environment_message, undefined_assignment_message, undefined_reference_message,
    unknown_service_message, unknown_type_message,
};
use crate::text::debug_names;
use vstd::prelude::*;

verus! {

/// The model of a state field's type.
pub enum SpecVedType {
    Int,
    String,
    Bool,
    Unknown(Seq<char>),
}

/// The model of a diagnostic: its message and the span it points at.
pub struct SpecSemanticError {
    pub message: Seq<char>,
    pub span: ErrorSpan,
}

/// What the validator records of a domain.
pub struct SpecDomainInfo {
    pub state_fields: Map<Seq<char>, SpecVedType>,
    pub required_capabilities: Seq<Seq<char>>,
    pub scope: Option<AuthorityScope>,
}

/// What the validator has recorded: domains and environments by name.
pub struct ValidatorModel {
    pub domains: Map<Seq<char>, SpecDomainInfo>,
    pub environment_capabilities: Map<Seq<char>, Seq<Seq<char>>>,
    pub environment_scopes: Map<Seq<char>, Seq<char>>,
}

/// The validator's records before any program.
pub open spec fn fresh_validator() -> ValidatorModel {
    ValidatorModel {
        domains: Map::empty(),
        environment_capabilities: Map::empty(),
        environment_scopes: Map::empty(),
    }
}

/// The lists of each element's items, one after the other.
pub open spec fn concat_map<A, B>(s: Seq<A>, f: spec_fn(A) -> Seq<B>) -> Seq<B>
    decreases s.len(),
{
    if s.len() == 0 {
        Seq::empty()
    } else {
        concat_map(s.drop_last(), f) + f(s.last())
    }
}

/// Taking one more element appends its items.
pub proof fn lemma_concat_map_step<A, B>(s: Seq<A>, f: spec_fn(A) -> Seq<B>, i: int)
    requires
        0 <= i < s.len(),
    ensures
        concat_map(s.take(i + 1), f) == concat_map(s.take(i), f) + f(s[i]),
{
    assert(s.take(i + 1).drop_last() =~= s.take(i));
}

/// When the lists of all elements are together empty, each is empty.
pub proof fn lemma_concat_map_empty<A, B>(s: Seq<A>, f: spec_fn(A) -> Seq<B>)
    requires
        concat_map(s, f).len() == 0,
    ensures
        forall|i: int| 0 <= i < s.len() ==> (#[trigger] f(s[i])).len() == 0,
    decreases s.len(),
{
    if s.len() > 0 {
        lemma_concat_map_empty(s.drop_last(), f);
        assert forall|i: int| 0 <= i < s.len() implies (#[trigger] f(s[i])).len() == 0 by {
            if i < s.len() - 1 {
                assert(s.drop_last()[i] == s[i]);
            }
        }
    }
}

/// The diagnostic span of a source span.
pub open spec fn at(s: Span) -> ErrorSpan {
    ErrorSpan { offset: s.offset, len: s.len }
}

pub open spec fn error(message: Seq<char>, span: ErrorSpan) -> SpecSemanticError {
    SpecSemanticError { message, span }
}

/// The type that a type name denotes.
pub open spec fn vtype_of(t: Seq<char>) -> SpecVedType {
    if t == "int"@ {
        SpecVedType::Int
    } else if t == "string"@ {
        SpecVedType::String
    } else if t == "bool"@ {
        SpecVedType::Bool
    } else {
        SpecVedType::Unknown(t)
    }
}

/// The state fields of a domain, read in order: the field map (the first
/// field of a name wins) and the errors for unknown types and duplicate names.
pub open spec fn field_pass(domain: Seq<char>, fields: Seq<SpecStateField>) -> (
    Map<Seq<char>, SpecVedType>,
    Seq<SpecSemanticError>,
)
    decreases fields.len(),
{
    if fields.len() == 0 {
        (Map::empty(), Seq::empty())
    } else {
        let (m, es) = field_pass(domain, fields.drop_last());
        let f = fields.last();
        let t = vtype_of(f.typ);
        let es1 = if t is Unknown {
            es.push(error(unknown_type_message(domain, f.typ, f.name), at(f.span)))
        } else {
            es
        };
        if m.contains_key(f.name) {
            (m, es1.push(error(duplicate_field_message(domain, f.name), at(f.span))))
        } else {
            (m.insert(f.name, t), es1)
        }
    }
}

/// The errors for what a domain's scope forbids it to declare.
pub open spec fn scope_errors(d: SpecDomainDecl) -> Seq<SpecSemanticError> {
    let nowhere = ErrorSpan { offset: 0, len: 0 };
    match d.scope {
        Some(AuthorityScope::Transition) => if d.state.len() > 0 || d.goals.len() > 0
            || d.invariants.len() > 0 {
            seq![error(transition_scope_message(d.name), nowhere)]
        } else {
            Seq::empty()
        },
        Some(AuthorityScope::Goal) => if d.state.len() > 0 || d.invariants.len() > 0 {
            seq![error(goal_scope_message(d.name), nowhere)]
        } else {
            Seq::empty()
        },
        _ => Seq::empty(),
    }
}

/// The name recorded for an environment's scope level; `domain` when it has none.
pub open spec fn scope_text(s: Option<AuthorityScope>) -> Seq<char> {
    match s {
        Some(AuthorityScope::Root) => "root"@,
        Some(AuthorityScope::Domain) => "domain"@,
        Some(AuthorityScope::Goal) => "goal"@,
        Some(AuthorityScope::Transition) => "transition"@,
        None => "domain"@,
    }
}

/// What the validator records of a domain declaration.
pub open spec fn domain_info_of(d: SpecDomainDecl) -> SpecDomainInfo {
    SpecDomainInfo {
        state_fields: field_pass(d.name, d.state).0,
        required_capabilities: d.required_capabilities,
        scope: d.scope,
    }
}

/// The errors that cataloging a domain declaration reports.
pub open spec fn domain_catalog_errors(d: SpecDomainDecl) -> Seq<SpecSemanticError> {
    field_pass(d.name, d.state).1 + scope_errors(d)
}

/// The state of the first pass: the validator's records, the environments
/// declared so far, and the errors so far.
pub struct Catalog {
    pub model: ValidatorModel,
    pub declared: Seq<Seq<char>>,
    pub errors: Seq<SpecSemanticError>,
}

/// The first pass on one statement: a domain is recorded under its name (a
/// later one replaces an earlier), an environment's capabilities and scope are
/// recorded and its name declared; other statements change nothing.
pub open spec fn catalog_step(c: Catalog, s: SpecStatement) -> Catalog {
    match s.kind {
        SpecStatementKind::DomainDecl(d) => Catalog {
            model: ValidatorModel {
                domains: c.model.domains.insert(d.name, domain_info_of(d)),
                environment_capabilities: c.model.environment_capabilities,
                environment_scopes: c.model.environment_scopes,
            },
            declared: c.declared,
            errors: c.errors + domain_catalog_errors(d),
        },
        SpecStatementKind::EnvironmentDecl(e) => Catalog {
            model: ValidatorModel {
                domains: c.model.domains,
                environment_capabilities: c.model.environment_capabilities.insert(
                    e.name,
                    e.available_capabilities,
                ),
                environment_scopes: c.model.environment_scopes.insert(e.name, scope_text(e.scope_level)),
            },
            declared: c.declared.push(e.name),
            errors: c.errors,
        },
        _ => c,
    }
}

/// The first pass over a list of statements, from the validator's records `v`.
pub open spec fn catalog(v: ValidatorModel, stmts: Seq<SpecStatement>) -> Catalog
    decreases stmts.len(),
{
    if stmts.len() == 0 {
        Catalog { model: v, declared: Seq::empty(), errors: Seq::empty() }
    } else {
        catalog_step(catalog(v, stmts.drop_last()), stmts.last())
    }
}

/// The errors of a deployment: its service names no recorded domain, its
/// target no environment declared in the same program.
pub open spec fn deploy_errors(
    domains: Map<Seq<char>, SpecDomainInfo>,
    declared: Seq<Seq<char>>,
    s: SpecStatement,
) -> Seq<SpecSemanticError> {
    match s.kind {
        SpecStatementKind::DeployStmt(dep) => (if domains.contains_key(dep.service) {
            Seq::empty()
        } else {
            seq![error(unknown_service_message(dep.service), at(s.span))]
        }) + (if declared.contains(dep.target_environment) {
            Seq::empty()
        } else {
            seq![error(undeclared_environment_message(dep.target_environment), at(s.span))]
        }),
        _ => Seq::empty(),
    }
}

pub open spec fn deployment_rule(
    domains: Map<Seq<char>, SpecDomainInfo>,
    declared: Seq<Seq<char>>,
) -> spec_fn(SpecStatement) -> Seq<SpecSemanticError> {
    |s: SpecStatement| deploy_errors(domains, declared, s)
}

/// Whether an expression is the literal `true`.
pub open spec fn is_true_literal(e: SpecExpr) -> bool {
    match e.kind {
        SpecExprKind::BoolLiteral(b) => b,
        _ => false,
    }
}

/// The errors of an expression in a domain with the given state fields; in a
/// pure context (goals, invariants) mutations and effects are errors too.
/// Sub-expressions are checked left to right, after the expression's own checks.
pub open spec fn expr_errors(
    domain: Seq<char>,
    e: SpecExpr,
    fields: Map<Seq<char>, SpecVedType>,
    pure: bool,
) -> Seq<SpecSemanticError>
    decreases e,
{
    match e.kind {
        SpecExprKind::Ident(name) => if fields.contains_key(name) {
            Seq::empty()
        } else {
            seq![error(undefined_reference_message(domain, name), at(e.span))]
        },
        SpecExprKind::Assignment { target, value } => (if pure {
            seq![error(illegal_mutation_message(domain, target), at(e.span))]
        } else {
            Seq::empty()
        }) + (if fields.contains_key(target) {
            Seq::empty()
        } else {
            seq![error(undefined_assignment_message(domain, target), at(e.span))]
        }) + expr_errors(domain, *value, fields, pure),
        SpecExprKind::BinaryOp { left, op: _, right } => expr_errors(domain, *left, fields, pure)
            + expr_errors(domain, *right, fields, pure),
        SpecExprKind::If { condition, consequence } => expr_errors(domain, *condition, fields, pure)
            + exprs_errors(domain, consequence, fields, pure),
        SpecExprKind::While { condition, body } => (if is_true_literal(*condition) {
            seq![error(unbounded_loop_message(domain), at(e.span))]
        } else {
            Seq::empty()
        }) + expr_errors(domain, *condition, fields, pure) + exprs_errors(domain, body, fields, pure),
        SpecExprKind::Send { .. } => if pure {
            seq![error(illegal_effect_message(domain, "send"@), at(e.span))]
        } else {
            Seq::empty()
        },
        SpecExprKind::SendHigh { .. } => if pure {
            seq![error(illegal_effect_message(domain, "send_high"@), at(e.span))]
        } else {
            Seq::empty()
        },
        SpecExprKind::Call { function, arguments } => (if function == "shell"@ {
            seq![error(shell_message(), at(e.span))]
        } else {
            Seq::empty()
        }) + exprs_errors(domain, arguments, fields, pure),
        _ => Seq::empty(),
    }
}

/// The errors of a list of expressions, in order.
pub open spec fn exprs_errors(
    domain: Seq<char>,
    es: Seq<SpecExpr>,
    fields: Map<Seq<char>, SpecVedType>,
    pure: bool,
) -> Seq<SpecSemanticError>
    decreases es,
{
    if es.len() == 0 {
        Seq::empty()
    } else {
        exprs_errors(domain, es.drop_last(), fields, pure) + expr_errors(domain, es.last(), fields, pure)
    }
}

pub proof fn lemma_exprs_errors_step(
    domain: Seq<char>,
    es: Seq<SpecExpr>,
    fields: Map<Seq<char>, SpecVedType>,
    pure: bool,
    i: int,
)
    requires
        0 <= i < es.len(),
    ensures
        exprs_errors(domain, es.take(i + 1), fields, pure) == exprs_errors(domain, es.take(i), fields, pure)
            + expr_errors(domain, es[i], fields, pure),
{
    assert(es.take(i + 1).drop_last() =~= es.take(i));
}

/// The effects an expression emits (`send` and `send_high`, each with its
/// span), in the order they occur.
pub open spec fn effects(e: SpecExpr) -> Seq<(Seq<char>, Span)>
    decreases e,
{
    match e.kind {
        SpecExprKind::Send { .. } => seq![("send"@, e.span)],
        SpecExprKind::SendHigh { .. } => seq![("send_high"@, e.span)],
        SpecExprKind::Assignment { target: _, value } => effects(*value),
        SpecExprKind::BinaryOp { left, op: _, right } => effects(*left) + effects(*right),
        SpecExprKind::If { condition, consequence } => effects(*condition) + effects_all(consequence),
        SpecExprKind::While { condition, body } => effects(*condition) + effects_all(body),
        SpecExprKind::Call { function: _, arguments } => effects_all(arguments),
        _ => Seq::empty(),
    }
}

/// The effects of a list of expressions, in order.
pub open spec fn effects_all(es: Seq<SpecExpr>) -> Seq<(Seq<char>, Span)>
    decreases es,
{
    if es.len() == 0 {
        Seq::empty()
    } else {
        effects_all(es.drop_last()) + effects(es.last())
    }
}

pub proof fn lemma_effects_all_step(es: Seq<SpecExpr>, i: int)
    requires
        0 <= i < es.len(),
    ensures
        effects_all(es.take(i + 1)) == effects_all(es.take(i)) + effects(es[i]),
{
    assert(es.take(i + 1).drop_last() =~= es.take(i));
}

/// A goal's target is checked as a pure expression.
pub open spec fn goal_purity(
    domain: Seq<char>,
    fields: Map<Seq<char>, SpecVedType>,
) -> spec_fn(SpecGoalDecl) -> Seq<SpecSemanticError> {
    |g: SpecGoalDecl| expr_errors(domain, g.target, fields, true)
}

/// An invariant's predicate is checked as a pure expression.
pub open spec fn invariant_purity(
    domain: Seq<char>,
    fields: Map<Seq<char>, SpecVedType>,
) -> spec_fn(SpecInvariantDecl) -> Seq<SpecSemanticError> {
    |i: SpecInvariantDecl| expr_errors(domain, i.predicate, fields, true)
}

/// A capability a transition requires beyond those of its domain is an escalation.
pub open spec fn transition_escalation(
    d: SpecDomainDecl,
    t: SpecTransitionDecl,
) -> spec_fn(Seq<char>) -> Seq<SpecSemanticError> {
    |req: Seq<char>|
        if d.required_capabilities.contains(req) {
            Seq::empty()
        } else {
            seq![
                error(
                    transition_escalation_message(
                        t.name,
                        d.name,
                        req,
                        debug_names(d.required_capabilities),
                        debug_names(t.required_capabilities),
                    ),
                    at(t.span),
                ),
            ]
        }
}

/// The diagnostic for an effect of a transition that lacks `messaging`.
pub open spec fn unlicensed_effect(
    d: SpecDomainDecl,
    t: SpecTransitionDecl,
) -> spec_fn((Seq<char>, Span)) -> SpecSemanticError {
    |p: (Seq<char>, Span)|
        error(
            transition_effect_message(t.name, d.name, p.0, debug_names(t.required_capabilities)),
            at(p.1),
        )
}

/// Each effect of a transition's steps is an error unless the transition
/// requires the `messaging` capability.
pub open spec fn transition_effect_errors(
    d: SpecDomainDecl,
    t: SpecTransitionDecl,
) -> Seq<SpecSemanticError> {
    let found = effects_all(t.slice_step);
    if found.len() > 0 && !t.required_capabilities.contains("messaging"@) {
        found.map_values(unlicensed_effect(d, t))
    } else {
        Seq::empty()
    }
}

/// The errors of a transition: those of its steps (not a pure context), its
/// capability escalations, and its effects without `messaging`.
pub open spec fn transition_errors(
    d: SpecDomainDecl,
    fields: Map<Seq<char>, SpecVedType>,
    t: SpecTransitionDecl,
) -> Seq<SpecSemanticError> {
    exprs_errors(d.name, t.slice_step, fields, false) + concat_map(
        t.required_capabilities,
        transition_escalation(d, t),
    ) + transition_effect_errors(d, t)
}

pub open spec fn transition_rule(
    d: SpecDomainDecl,
    fields: Map<Seq<char>, SpecVedType>,
) -> spec_fn(SpecTransitionDecl) -> Seq<SpecSemanticError> {
    |t: SpecTransitionDecl| transition_errors(d, fields, t)
}

/// A capability a goal requires beyond those of its domain is an escalation.
pub open spec fn goal_escalation(
    d: SpecDomainDecl,
    g: SpecGoalDecl,
) -> spec_fn(Seq<char>) -> Seq<SpecSemanticError> {
    |req: Seq<char>|
        if d.required_capabilities.contains(req) {
            Seq::empty()
        } else {
            seq![
                error(
                    goal_escalation_message(
                        g.name,
                        d.name,
                        req,
                        debug_names(d.required_capabilities),
                        debug_names(g.required_capabilities),
                    ),
                    at(g.span),
                ),
            ]
        }
}

/// The diagnostic for an effect in a goal's target.
pub open spec fn impure_goal_effect(
    d: SpecDomainDecl,
    g: SpecGoalDecl,
) -> spec_fn((Seq<char>, Span)) -> SpecSemanticError {
    |p: (Seq<char>, Span)| error(goal_effect_message(g.name, d.name, p.0), at(p.1))
}

/// The authority errors of a goal: its capability escalations, then one
/// error for each effect in its target.
pub open spec fn goal_authority_errors(d: SpecDomainDecl, g: SpecGoalDecl) -> Seq<SpecSemanticError> {
    concat_map(g.required_capabilities, goal_escalation(d, g)) + effects(g.target).map_values(
        impure_goal_effect(d, g),
    )
}

pub open spec fn goal_authority(d: SpecDomainDecl) -> spec_fn(SpecGoalDecl) -> Seq<SpecSemanticError> {
    |g: SpecGoalDecl| goal_authority_errors(d, g)
}

/// The third pass on a domain, against what was recorded under its name:
/// goal purity, invariant purity, transitions, then goal authority.
pub open spec fn domain_errors(d: SpecDomainDecl, info: SpecDomainInfo) -> Seq<SpecSemanticError> {
    concat_map(d.goals, goal_purity(d.name, info.state_fields)) + concat_map(
        d.invariants,
        invariant_purity(d.name, info.state_fields),
    ) + concat_map(d.transitions, transition_rule(d, info.state_fields)) + concat_map(
        d.goals,
        goal_authority(d),
    )
}

pub open spec fn domain_rule(domains: Map<Seq<char>, SpecDomainInfo>) -> spec_fn(SpecStatement) -> Seq<
    SpecSemanticError,
> {
    |s: SpecStatement|
        match s.kind {
            SpecStatementKind::DomainDecl(d) => domain_errors(d, domains[d.name]),
            _ => Seq::empty(),
        }
}

/// Every error that validating `stmts` reports, starting from the records `v`:
/// the first pass's, then the deployments', then the domains'.
pub open spec fn validation_errors(v: ValidatorModel, stmts: Seq<SpecStatement>) -> Seq<SpecSemanticError> {
    let c = catalog(v, stmts);
    c.errors + concat_map(stmts, deployment_rule(c.model.domains, c.declared)) + concat_map(
        stmts,
        domain_rule(c.model.domains),
    )
}

/// After the first pass every domain of the program is recorded.
pub proof fn lemma_catalog_records_domains(v: ValidatorModel, stmts: Seq<SpecStatement>, j: int)
    requires
        0 <= j < stmts.len(),
        stmts[j].kind is DomainDecl,
    ensures
        catalog(v, stmts).model.domains.contains_key(stmts[j].kind->DomainDecl_0.name),
    decreases stmts.len(),
{
    if j < stmts.len() - 1 {
        lemma_catalog_records_domains(v, stmts.drop_last(), j);
        assert(stmts.drop_last()[j] == stmts[j]);
    }
}

} // verus!
