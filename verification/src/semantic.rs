//! Semantic validation of a parsed program: state field types, scope limits,
//! deployments, purity of goals and invariants, capability escalation and
//! effect emission. What each step reports is stated in `rules`.
pub mod laws;
pub mod messages;
pub mod rules;

use crate::ast::{
    exprs_view, lemma_exprs_view, Ast, AuthorityScope, DomainDecl, EnvironmentDecl, Expr, ExprKind,
    GoalDecl, Statement, StatementKind, TransitionDecl,
};
use crate::lexer::Span;
use crate::name_map::NameMap;
use crate::parser::grammar::ErrorSpan;
use crate::semantic::rules::{
    at, catalog, concat_map, deploy_errors, deployment_rule, domain_catalog_errors,
    domain_errors, domain_info_of, domain_rule, effects, effects_all, error, expr_errors,
    exprs_errors, field_pass, goal_authority, goal_authority_errors, goal_escalation, goal_purity,
    impure_goal_effect, invariant_purity, lemma_catalog_records_domains, lemma_concat_map_step,
    lemma_effects_all_step, lemma_exprs_errors_step, scope_text, transition_errors,
    transition_escalation, transition_rule, unlicensed_effect, validation_errors, vtype_of,
    SpecDomainInfo, SpecSemanticError, SpecVedType, ValidatorModel,
};
use crate::text::{debug_names, debug_names_text, names_contain, names_view, str_eq};
use vstd::prelude::*;

verus! {

/// The type of a state field.
#[derive(Debug, Clone, PartialEq)]
pub enum VedType {
    Int,
    String,
    Bool,
    Unknown(String),
}

impl View for VedType {
    type V = SpecVedType;

    open spec fn view(&self) -> SpecVedType {
        match self {
            VedType::Int => SpecVedType::Int,
            VedType::String => SpecVedType::String,
            VedType::Bool => SpecVedType::Bool,
            VedType::Unknown(t) => SpecVedType::Unknown(t@),
        }
    }
}

impl DeepView for VedType {
    type V = SpecVedType;

    open spec fn deep_view(&self) -> SpecVedType {
        self@
    }
}

/// A diagnostic of the validator: its message and the span it points at.
#[derive(Debug)]
pub struct SemanticError {
    pub message: String,
    pub span: ErrorSpan,
}

impl View for SemanticError {
    type V = SpecSemanticError;

    open spec fn view(&self) -> SpecSemanticError {
        SpecSemanticError { message: self.message@, span: self.span }
    }
}

/// The model of a list of diagnostics.
pub open spec fn errors_view(es: Seq<SemanticError>) -> Seq<SpecSemanticError> {
    es.map_values(|e: SemanticError| e@)
}

/// The model of a list of effects found.
pub open spec fn effects_view(v: Seq<(String, Span)>) -> Seq<(Seq<char>, Span)> {
    v.map_values(|p: (String, Span)| (p.0@, p.1))
}

/// What the validator records of a domain.
struct DomainInfo {
    state_fields: NameMap<VedType>,
    required_capabilities: Vec<String>,
    scope: Option<AuthorityScope>,
}

impl DeepView for DomainInfo {
    type V = SpecDomainInfo;

    closed spec fn deep_view(&self) -> SpecDomainInfo {
        SpecDomainInfo {
            state_fields: self.state_fields@,
            required_capabilities: names_view(self.required_capabilities@),
            scope: self.scope,
        }
    }
}

/// Validates programs, keeping what it learns of domains and environments.
pub struct SemanticValidator {
    domains: NameMap<DomainInfo>,
    environment_capabilities: NameMap<Vec<String>>,
    environment_scopes: NameMap<String>,
}

impl View for SemanticValidator {
    type V = ValidatorModel;

    closed spec fn view(&self) -> ValidatorModel {
        ValidatorModel {
            domains: self.domains@,
            environment_capabilities: self.environment_capabilities@,
            environment_scopes: self.environment_scopes@,
        }
    }
}

fn to_span(span: Span) -> (r: ErrorSpan)
    ensures
        r == at(span),
{
    ErrorSpan { offset: span.offset, len: span.len }
}

/// Adds a diagnostic to the end of `errors`.
fn report(errors: &mut Vec<SemanticError>, message: String, span: ErrorSpan)
    ensures
        errors_view(final(errors)@) == errors_view(old(errors)@).push(error(message@, span)),
{
    let ghost m = message@;
    errors.push(SemanticError { message, span });
    assert(errors_view(errors@) =~= errors_view(old(errors)@).push(error(m, span)));
}

/// A copy of a list of names.
fn copy_names(names: &Vec<String>) -> (r: Vec<String>)
    ensures
        names_view(r@) == names_view(names@),
{
    let mut r: Vec<String> = Vec::new();
    let mut i: usize = 0;
    while i < names.len()
        invariant
            i <= names@.len(),
            r@.len() == i,
            forall|k: int| 0 <= k < i ==> #[trigger] r@[k]@ == names@[k]@,
        decreases names@.len() - i,
    {
        let name = names[i].clone();
        assert(name@ == names@[i as int]@);
        r.push(name);
        i = i + 1;
    }
    assert(names_view(r@) =~= names_view(names@));
    r
}

/// The type a type name denotes.
fn vtype_named(t: &str) -> (r: VedType)
    ensures
        r@ == vtype_of(t@),
{
    if str_eq(t, "int") {
        VedType::Int
    } else if str_eq(t, "string") {
        VedType::String
    } else if str_eq(t, "bool") {
        VedType::Bool
    } else {
        VedType::Unknown(String::from_str(t))
    }
}

impl SemanticValidator {
    /// A validator that has recorded nothing yet.
    pub fn new() -> (r: SemanticValidator)
        ensures
            r@ == (ValidatorModel {
                domains: Map::empty(),
                environment_capabilities: Map::empty(),
                environment_scopes: Map::empty(),
            }),
    {
        SemanticValidator {
            domains: NameMap::new(),
            environment_capabilities: NameMap::new(),
            environment_scopes: NameMap::new(),
        }
    }

    /// Appends the effects that `expr` emits, in order, to `effects_found`.
    fn scan_effects_in_expr(&self, expr: &Expr, effects_found: &mut Vec<(String, Span)>)
        ensures
            effects_view(final(effects_found)@) == effects_view(old(effects_found)@) + effects(expr@),
        decreases expr,
    {
        match &expr.kind {
            ExprKind::Send { .. } => {
                effects_found.push((String::from_str("send"), expr.span));
                assert(effects_view(effects_found@) =~= effects_view(old(effects_found)@) + effects(expr@));
            },
            ExprKind::SendHigh { .. } => {
                effects_found.push((String::from_str("send_high"), expr.span));
                assert(effects_view(effects_found@) =~= effects_view(old(effects_found)@) + effects(expr@));
            },
            ExprKind::Assignment { value, .. } => {
                self.scan_effects_in_expr(value, effects_found);
            },
            ExprKind::BinaryOp { left, right, .. } => {
                self.scan_effects_in_expr(left, effects_found);
                self.scan_effects_in_expr(right, effects_found);
                assert(effects_view(effects_found@) =~= effects_view(old(effects_found)@) + effects(expr@));
            },
            ExprKind::If { condition, consequence } => {
                self.scan_effects_in_expr(condition, effects_found);
                self.scan_effects_in_list(consequence, effects_found);
                assert(effects_view(effects_found@) =~= effects_view(old(effects_found)@) + effects(expr@));
            },
            ExprKind::While { condition, body } => {
                self.scan_effects_in_expr(condition, effects_found);
                self.scan_effects_in_list(body, effects_found);
                assert(effects_view(effects_found@) =~= effects_view(old(effects_found)@) + effects(expr@));
            },
            ExprKind::Call { arguments, .. } => {
                self.scan_effects_in_list(arguments, effects_found);
            },
            _ => {
                assert(effects_view(effects_found@) =~= effects_view(old(effects_found)@) + effects(expr@));
            },
        }
    }

    /// Appends the effects of each expression of `exprs`, in order, to `effects_found`.
    fn scan_effects_in_list(&self, exprs: &Vec<Expr>, effects_found: &mut Vec<(String, Span)>)
        ensures
            effects_view(final(effects_found)@) == effects_view(old(effects_found)@) + effects_all(
                exprs_view(exprs@),
            ),
        decreases exprs,
    {
        let ghost es = exprs_view(exprs@);
        proof {
            lemma_exprs_view(exprs@);
        }
        let mut i: usize = 0;
        while i < exprs.len()
            invariant
                i <= exprs@.len(),
                es == exprs_view(exprs@),
                es.len() == exprs@.len(),
                forall|k: int| 0 <= k < exprs@.len() ==> #[trigger] es[k] == exprs@[k]@,
                effects_view(effects_found@) == effects_view(old(effects_found)@) + effects_all(
                    es.take(i as int),
                ),
            decreases exprs@.len() - i,
        {
            proof {
                lemma_effects_all_step(es, i as int);
            }
            self.scan_effects_in_expr(&exprs[i], effects_found);
            assert(effects_view(effects_found@) =~= effects_view(old(effects_found)@) + effects_all(
                es.take(i + 1),
            ));
            i = i + 1;
        }
        assert(es.take(exprs@.len() as int) =~= es);
    }

    /// Appends the errors of `expr` in the domain named `domain_name` to `errors`.
    fn validate_expr(
        &self,
        domain_name: &str,
        expr: &Expr,
        domain_info: &DomainInfo,
        is_pure_context: bool,
        errors: &mut Vec<SemanticError>,
    )
        ensures
            errors_view(final(errors)@) == errors_view(old(errors)@) + expr_errors(
                domain_name@,
                expr@,
                domain_info.state_fields@,
                is_pure_context,
            ),
        decreases expr,
    {
        let ghost fields = domain_info.state_fields@;
        match &expr.kind {
            ExprKind::Ident(name) => {
                if !domain_info.state_fields.contains_key(name.as_str()) {
                    report(errors, messages::undefined_reference(domain_name, name.as_str()), to_span(expr.span));
                }
                assert(errors_view(errors@) =~= errors_view(old(errors)@) + expr_errors(
                    domain_name@,
                    expr@,
                    fields,
                    is_pure_context,
                ));
            },
            ExprKind::Assignment { target, value } => {
                if is_pure_context {
                    report(errors, messages::illegal_mutation(domain_name, target.as_str()), to_span(expr.span));
                }
                if !domain_info.state_fields.contains_key(target.as_str()) {
                    report(errors, messages::undefined_assignment(domain_name, target.as_str()), to_span(expr.span));
                }
                self.validate_expr(domain_name, value, domain_info, is_pure_context, errors);
                assert(errors_view(errors@) =~= errors_view(old(errors)@) + expr_errors(
                    domain_name@,
                    expr@,
                    fields,
                    is_pure_context,
                ));
            },
            ExprKind::BinaryOp { left, right, .. } => {
                self.validate_expr(domain_name, left, domain_info, is_pure_context, errors);
                self.validate_expr(domain_name, right, domain_info, is_pure_context, errors);
                assert(errors_view(errors@) =~= errors_view(old(errors)@) + expr_errors(
                    domain_name@,
                    expr@,
                    fields,
                    is_pure_context,
                ));
            },
            ExprKind::If { condition, consequence } => {
                self.validate_expr(domain_name, condition, domain_info, is_pure_context, errors);
                self.validate_list(domain_name, consequence, domain_info, is_pure_context, errors);
                assert(errors_view(errors@) =~= errors_view(old(errors)@) + expr_errors(
                    domain_name@,
                    expr@,
                    fields,
                    is_pure_context,
                ));
            },
            ExprKind::While { condition, body } => {
                let unbounded = match &condition.kind {
                    ExprKind::BoolLiteral(b) => *b,
                    _ => false,
                };
                if unbounded {
                    report(errors, messages::unbounded_loop(domain_name), to_span(expr.span));
                }
                self.validate_expr(domain_name, condition, domain_info, is_pure_context, errors);
                self.validate_list(domain_name, body, domain_info, is_pure_context, errors);
                assert(errors_view(errors@) =~= errors_view(old(errors)@) + expr_errors(
                    domain_name@,
                    expr@,
                    fields,
                    is_pure_context,
                ));
            },
            ExprKind::Send { .. } => {
                if is_pure_context {
                    report(errors, messages::illegal_effect(domain_name, "send"), to_span(expr.span));
                }
                assert(errors_view(errors@) =~= errors_view(old(errors)@) + expr_errors(
                    domain_name@,
                    expr@,
                    fields,
                    is_pure_context,
                ));
            },
            ExprKind::SendHigh { .. } => {
                if is_pure_context {
                    report(errors, messages::illegal_effect(domain_name, "send_high"), to_span(expr.span));
                }
                assert(errors_view(errors@) =~= errors_view(old(errors)@) + expr_errors(
                    domain_name@,
                    expr@,
                    fields,
                    is_pure_context,
                ));
            },
            ExprKind::Call { function, arguments } => {
                if str_eq(function.as_str(), "shell") {
                    report(errors, messages::shell(), to_span(expr.span));
                }
                self.validate_list(domain_name, arguments, domain_info, is_pure_context, errors);
                assert(errors_view(errors@) =~= errors_view(old(errors)@) + expr_errors(
                    domain_name@,
                    expr@,
                    fields,
                    is_pure_context,
                ));
            },
            _ => {
                assert(errors_view(errors@) =~= errors_view(old(errors)@) + expr_errors(
                    domain_name@,
                    expr@,
                    fields,
                    is_pure_context,
                ));
            },
        }
    }

    /// Appends the errors of each expression of `exprs`, in order, to `errors`.
    fn validate_list(
        &self,
        domain_name: &str,
        exprs: &Vec<Expr>,
        domain_info: &DomainInfo,
        is_pure_context: bool,
        errors: &mut Vec<SemanticError>,
    )
        ensures
            errors_view(final(errors)@) == errors_view(old(errors)@) + exprs_errors(
                domain_name@,
                exprs_view(exprs@),
                domain_info.state_fields@,
                is_pure_context,
            ),
        decreases exprs,
    {
        let ghost es = exprs_view(exprs@);
        let ghost fields = domain_info.state_fields@;
        proof {
            lemma_exprs_view(exprs@);
        }
        let mut i: usize = 0;
        while i < exprs.len()
            invariant
                i <= exprs@.len(),
                es == exprs_view(exprs@),
                fields == domain_info.state_fields@,
                es.len() == exprs@.len(),
                forall|k: int| 0 <= k < exprs@.len() ==> #[trigger] es[k] == exprs@[k]@,
                errors_view(errors@) == errors_view(old(errors)@) + exprs_errors(
                    domain_name@,
                    es.take(i as int),
                    fields,
                    is_pure_context,
                ),
            decreases exprs@.len() - i,
        {
            proof {
                lemma_exprs_errors_step(domain_name@, es, fields, is_pure_context, i as int);
            }
            self.validate_expr(domain_name, &exprs[i], domain_info, is_pure_context, errors);
            assert(errors_view(errors@) =~= errors_view(old(errors)@) + exprs_errors(
                domain_name@,
                es.take(i + 1),
                fields,
                is_pure_context,
            ));
            i = i + 1;
        }
        assert(es.take(exprs@.len() as int) =~= es);
    }

    /// The first pass on a domain: reads its state fields and scope limits,
    /// reporting what they break, and records the domain under its name.
    fn catalog_domain(&mut self, domain: &DomainDecl, errors: &mut Vec<SemanticError>)
        ensures
            final(self)@.domains == old(self)@.domains.insert(domain.name@, domain_info_of(domain@)),
            final(self)@.environment_capabilities == old(self)@.environment_capabilities,
            final(self)@.environment_scopes == old(self)@.environment_scopes,
            errors_view(final(errors)@) == errors_view(old(errors)@) + domain_catalog_errors(domain@),
    {
        let ghost d = domain@;
        let mut state_fields: NameMap<VedType> = NameMap::new();
        let mut i: usize = 0;
        while i < domain.state.len()
            invariant
                i <= domain.state@.len(),
                d == domain@,
                field_pass(d.name, d.state.take(i as int)).0 == state_fields@,
                errors_view(errors@) == errors_view(old(errors)@) + field_pass(d.name, d.state.take(i as int)).1,
            decreases domain.state@.len() - i,
        {
            let field = &domain.state[i];
            assert(d.state.take(i + 1).drop_last() =~= d.state.take(i as int));
            assert(d.state.take(i + 1).last() == field@);
            let v_type = vtype_named(field.typ.as_str());
            match &v_type {
                VedType::Unknown(t) => {
                    report(
                        errors,
                        messages::unknown_type(domain.name.as_str(), t.as_str(), field.name.as_str()),
                        to_span(field.span),
                    );
                },
                _ => {},
            }
            if state_fields.contains_key(field.name.as_str()) {
                report(errors, messages::duplicate_field(domain.name.as_str(), field.name.as_str()), to_span(field.span));
            } else {
                state_fields.insert(field.name.clone(), v_type);
            }
            i = i + 1;
        }
        assert(d.state.take(domain.state@.len() as int) =~= d.state);
        let nowhere = ErrorSpan { offset: 0, len: 0 };
        match domain.scope {
            Some(AuthorityScope::Transition) => {
                if domain.state.len() > 0 || domain.goals.len() > 0 || domain.invariants.len() > 0 {
                    report(errors, messages::transition_scope(domain.name.as_str()), nowhere);
                }
            },
            Some(AuthorityScope::Goal) => {
                if domain.state.len() > 0 || domain.invariants.len() > 0 {
                    report(errors, messages::goal_scope(domain.name.as_str()), nowhere);
                }
            },
            _ => {},
        }
        assert(errors_view(errors@) =~= errors_view(old(errors)@) + domain_catalog_errors(d));
        let req_caps = copy_names(&domain.required_capabilities);
        let info = DomainInfo { state_fields, required_capabilities: req_caps, scope: domain.scope };
        assert(info.deep_view() == domain_info_of(d));
        self.domains.insert(domain.name.clone(), info);
    }

    /// The first pass on an environment: records its capabilities and scope
    /// level and declares its name.
    fn catalog_environment(&mut self, env: &EnvironmentDecl, declared_environments: &mut Vec<String>)
        ensures
            final(self)@.domains == old(self)@.domains,
            final(self)@.environment_capabilities == old(self)@.environment_capabilities.insert(
                env.name@,
                names_view(env.available_capabilities@),
            ),
            final(self)@.environment_scopes == old(self)@.environment_scopes.insert(
                env.name@,
                scope_text(env.scope_level),
            ),
            names_view(final(declared_environments)@) == names_view(old(declared_environments)@).push(
                env.name@,
            ),
    {
        declared_environments.push(env.name.clone());
        assert(names_view(declared_environments@) =~= names_view(old(declared_environments)@).push(
            env.name@,
        ));
        let caps = copy_names(&env.available_capabilities);
        assert(caps.deep_view() =~= names_view(env.available_capabilities@));
        self.environment_capabilities.insert(env.name.clone(), caps);
        let scope_str = match env.scope_level {
            Some(AuthorityScope::Root) => "root",
            Some(AuthorityScope::Domain) => "domain",
            Some(AuthorityScope::Goal) => "goal",
            Some(AuthorityScope::Transition) => "transition",
            None => "domain",
        };
        self.environment_scopes.insert(env.name.clone(), String::from_str(scope_str));
    }

    /// The second pass on a statement: a deployment must name a recorded
    /// domain and a declared environment.
    fn check_deployment(&self, stmt: &Statement, declared_environments: &Vec<String>, errors: &mut Vec<SemanticError>)
        ensures
            errors_view(final(errors)@) == errors_view(old(errors)@) + deploy_errors(
                self@.domains,
                names_view(declared_environments@),
                stmt@,
            ),
    {
        if let StatementKind::DeployStmt(deploy) = &stmt.kind {
            if !self.domains.contains_key(deploy.service.as_str()) {
                report(errors, messages::unknown_service(deploy.service.as_str()), to_span(stmt.span));
            }
            if !names_contain(declared_environments, deploy.target_environment.as_str()) {
                report(
                    errors,
                    messages::undeclared_environment(deploy.target_environment.as_str()),
                    to_span(stmt.span),
                );
            }
        }
        assert(errors_view(errors@) =~= errors_view(old(errors)@) + deploy_errors(
            self@.domains,
            names_view(declared_environments@),
            stmt@,
        ));
    }

    /// A transition's checks: its steps (where mutations and effects are
    /// allowed), its capability escalations, and its effects without `messaging`.
    fn check_transition(
        &self,
        domain: &DomainDecl,
        domain_info: &DomainInfo,
        transition: &TransitionDecl,
        errors: &mut Vec<SemanticError>,
    )
        ensures
            errors_view(final(errors)@) == errors_view(old(errors)@) + transition_errors(
                domain@,
                domain_info.state_fields@,
                transition@,
            ),
    {
        let ghost d = domain@;
        let ghost t = transition@;
        self.validate_list(domain.name.as_str(), &transition.slice_step, domain_info, false, errors);
        let ghost after_steps = errors_view(errors@);

        // A007: a transition may not require what its domain does not provide.
        let mut k: usize = 0;
        while k < transition.required_capabilities.len()
            invariant
                k <= transition.required_capabilities@.len(),
                d == domain@,
                t == transition@,
                errors_view(errors@) == after_steps + concat_map(
                    t.required_capabilities.take(k as int),
                    transition_escalation(d, t),
                ),
            decreases transition.required_capabilities@.len() - k,
        {
            proof {
                lemma_concat_map_step(t.required_capabilities, transition_escalation(d, t), k as int);
            }
            let req = &transition.required_capabilities[k];
            if !names_contain(&domain.required_capabilities, req.as_str()) {
                let provided = debug_names_text(&domain.required_capabilities);
                let required = debug_names_text(&transition.required_capabilities);
                report(
                    errors,
                    messages::transition_escalation(
                        transition.name.as_str(),
                        domain.name.as_str(),
                        req.as_str(),
                        provided.as_str(),
                        required.as_str(),
                    ),
                    to_span(transition.span),
                );
            }
            assert(errors_view(errors@) =~= after_steps + concat_map(
                t.required_capabilities.take(k + 1),
                transition_escalation(d, t),
            ));
            k = k + 1;
        }
        assert(t.required_capabilities.take(k as int) =~= t.required_capabilities);
        let ghost after_caps = errors_view(errors@);

        // A008: emitting effects takes the `messaging` capability.
        let mut effects_found: Vec<(String, Span)> = Vec::new();
        self.scan_effects_in_list(&transition.slice_step, &mut effects_found);
        let ghost found = effects_all(t.slice_step);
        assert(effects_view(effects_found@) =~= found);
        if effects_found.len() > 0 && !names_contain(&transition.required_capabilities, "messaging") {
            let capabilities = debug_names_text(&transition.required_capabilities);
            let mut j: usize = 0;
            while j < effects_found.len()
                invariant
                    j <= effects_found@.len(),
                    capabilities@ == debug_names(t.required_capabilities),
                    d == domain@,
                    t == transition@,
                    effects_view(effects_found@) == found,
                    errors_view(errors@) == after_caps + found.take(j as int).map_values(
                        unlicensed_effect(d, t),
                    ),
                decreases effects_found@.len() - j,
            {
                let effect = &effects_found[j];
                assert(found[j as int] == (effect.0@, effect.1));
                report(
                    errors,
                    messages::transition_effect(
                        transition.name.as_str(),
                        domain.name.as_str(),
                        effect.0.as_str(),
                        capabilities.as_str(),
                    ),
                    to_span(effect.1),
                );
                assert(found.take(j + 1).map_values(unlicensed_effect(d, t)) =~= found.take(
                    j as int,
                ).map_values(unlicensed_effect(d, t)).push(unlicensed_effect(d, t)(found[j as int])));
                j = j + 1;
            }
            assert(found.take(j as int) =~= found);
        }
        assert(errors_view(errors@) =~= errors_view(old(errors)@) + transition_errors(
            d,
            domain_info.state_fields@,
            t,
        ));
    }

    /// A goal's authority checks: its capability escalations, then each effect
    /// in its target.
    fn check_goal_authority(&self, domain: &DomainDecl, goal: &GoalDecl, errors: &mut Vec<SemanticError>)
        ensures
            errors_view(final(errors)@) == errors_view(old(errors)@) + goal_authority_errors(
                domain@,
                goal@,
            ),
    {
        let ghost d = domain@;
        let ghost g = goal@;
        let mut k: usize = 0;
        while k < goal.required_capabilities.len()
            invariant
                k <= goal.required_capabilities@.len(),
                d == domain@,
                g == goal@,
                errors_view(errors@) == errors_view(old(errors)@) + concat_map(
                    g.required_capabilities.take(k as int),
                    goal_escalation(d, g),
                ),
            decreases goal.required_capabilities@.len() - k,
        {
            proof {
                lemma_concat_map_step(g.required_capabilities, goal_escalation(d, g), k as int);
            }
            let req = &goal.required_capabilities[k];
            if !names_contain(&domain.required_capabilities, req.as_str()) {
                let provided = debug_names_text(&domain.required_capabilities);
                let required = debug_names_text(&goal.required_capabilities);
                report(
                    errors,
                    messages::goal_escalation(
                        goal.name.as_str(),
                        domain.name.as_str(),
                        req.as_str(),
                        provided.as_str(),
                        required.as_str(),
                    ),
                    to_span(goal.span),
                );
            }
            assert(errors_view(errors@) =~= errors_view(old(errors)@) + concat_map(
                g.required_capabilities.take(k + 1),
                goal_escalation(d, g),
            ));
            k = k + 1;
        }
        assert(g.required_capabilities.take(k as int) =~= g.required_capabilities);
        let ghost after_caps = errors_view(errors@);

        let mut effects_found: Vec<(String, Span)> = Vec::new();
        self.scan_effects_in_expr(&goal.target, &mut effects_found);
        let ghost found = effects(g.target);
        assert(effects_view(effects_found@) =~= found);
        let mut j: usize = 0;
        while j < effects_found.len()
            invariant
                j <= effects_found@.len(),
                d == domain@,
                g == goal@,
                effects_view(effects_found@) == found,
                errors_view(errors@) == after_caps + found.take(j as int).map_values(
                    impure_goal_effect(d, g),
                ),
            decreases effects_found@.len() - j,
        {
            let effect = &effects_found[j];
            assert(found[j as int] == (effect.0@, effect.1));
            report(
                errors,
                messages::goal_effect(goal.name.as_str(), domain.name.as_str(), effect.0.as_str()),
                to_span(effect.1),
            );
            assert(found.take(j + 1).map_values(impure_goal_effect(d, g)) =~= found.take(
                j as int,
            ).map_values(impure_goal_effect(d, g)).push(impure_goal_effect(d, g)(found[j as int])));
            j = j + 1;
        }
        assert(found.take(j as int) =~= found);
        assert(errors_view(errors@) =~= errors_view(old(errors)@) + goal_authority_errors(d, g));
    }

    /// The third pass on a domain, against what is recorded under its name:
    /// its goals and invariants must be pure, then its transitions and its
    /// goals' authority are checked.
    fn check_domain(&self, domain: &DomainDecl, domain_info: &DomainInfo, errors: &mut Vec<SemanticError>)
        ensures
            errors_view(final(errors)@) == errors_view(old(errors)@) + domain_errors(
                domain@,
                domain_info.deep_view(),
            ),
    {
        let ghost d = domain@;
        let ghost fields = domain_info.state_fields@;
        let ghost start = errors_view(errors@);

        // Goals are strictly pure.
        let mut i: usize = 0;
        while i < domain.goals.len()
            invariant
                i <= domain.goals@.len(),
                d == domain@,
                fields == domain_info.state_fields@,
                errors_view(errors@) == start + concat_map(d.goals.take(i as int), goal_purity(d.name, fields)),
            decreases domain.goals@.len() - i,
        {
            proof {
                lemma_concat_map_step(d.goals, goal_purity(d.name, fields), i as int);
            }
            self.validate_expr(domain.name.as_str(), &domain.goals[i].target, domain_info, true, errors);
            assert(errors_view(errors@) =~= start + concat_map(d.goals.take(i + 1), goal_purity(d.name, fields)));
            i = i + 1;
        }
        assert(d.goals.take(i as int) =~= d.goals);
        let ghost after_goals = errors_view(errors@);

        // Invariants are strictly pure.
        let mut i: usize = 0;
        while i < domain.invariants.len()
            invariant
                i <= domain.invariants@.len(),
                d == domain@,
                fields == domain_info.state_fields@,
                errors_view(errors@) == after_goals + concat_map(
                    d.invariants.take(i as int),
                    invariant_purity(d.name, fields),
                ),
            decreases domain.invariants@.len() - i,
        {
            proof {
                lemma_concat_map_step(d.invariants, invariant_purity(d.name, fields), i as int);
            }
            self.validate_expr(domain.name.as_str(), &domain.invariants[i].predicate, domain_info, true, errors);
            assert(errors_view(errors@) =~= after_goals + concat_map(
                d.invariants.take(i + 1),
                invariant_purity(d.name, fields),
            ));
            i = i + 1;
        }
        assert(d.invariants.take(i as int) =~= d.invariants);
        let ghost after_invariants = errors_view(errors@);

        // Transitions may mutate and emit, within their capabilities.
        let mut i: usize = 0;
        while i < domain.transitions.len()
            invariant
                i <= domain.transitions@.len(),
                d == domain@,
                fields == domain_info.state_fields@,
                errors_view(errors@) == after_invariants + concat_map(
                    d.transitions.take(i as int),
                    transition_rule(d, fields),
                ),
            decreases domain.transitions@.len() - i,
        {
            proof {
                lemma_concat_map_step(d.transitions, transition_rule(d, fields), i as int);
            }
            self.check_transition(domain, domain_info, &domain.transitions[i], errors);
            assert(errors_view(errors@) =~= after_invariants + concat_map(
                d.transitions.take(i + 1),
                transition_rule(d, fields),
            ));
            i = i + 1;
        }
        assert(d.transitions.take(i as int) =~= d.transitions);
        let ghost after_transitions = errors_view(errors@);

        // Goals stay within the domain's authority and emit nothing.
        let mut i: usize = 0;
        while i < domain.goals.len()
            invariant
                i <= domain.goals@.len(),
                d == domain@,
                errors_view(errors@) == after_transitions + concat_map(d.goals.take(i as int), goal_authority(d)),
            decreases domain.goals@.len() - i,
        {
            proof {
                lemma_concat_map_step(d.goals, goal_authority(d), i as int);
            }
            self.check_goal_authority(domain, &domain.goals[i], errors);
            assert(errors_view(errors@) =~= after_transitions + concat_map(d.goals.take(i + 1), goal_authority(d)));
            i = i + 1;
        }
        assert(d.goals.take(i as int) =~= d.goals);
        assert(errors_view(errors@) =~= errors_view(old(errors)@) + domain_errors(d, domain_info.deep_view()));
    }

    /// Validates a program: first catalogs its domains and environments
    /// (recording them in the validator, where they stay for later programs),
    /// then checks its deployments, then checks each domain. Succeeds when no
    /// check reports an error; otherwise returns every error, in that order.
    pub fn validate(&mut self, ast: &Ast) -> (r: Result<(), Vec<SemanticError>>)
        ensures
            final(self)@ == catalog(old(self)@, ast@.statements).model,
            r is Ok <==> validation_errors(old(self)@, ast@.statements).len() == 0,
            r matches Err(es) ==> errors_view(es@) == validation_errors(old(self)@, ast@.statements),
    {
        let ghost v0 = self@;
        let ghost stmts = ast@.statements;
        let mut errors: Vec<SemanticError> = Vec::new();
        let mut declared_environments: Vec<String> = Vec::new();
        let n = ast.statements.len();

        // Pass 1: catalog all domain states and environments.
        let mut i: usize = 0;
        while i < n
            invariant
                n == ast.statements@.len(),
                stmts == ast@.statements,
                i <= n,
                catalog(v0, stmts.take(i as int)).model == self@,
                catalog(v0, stmts.take(i as int)).declared == names_view(declared_environments@),
                catalog(v0, stmts.take(i as int)).errors == errors_view(errors@),
            decreases n - i,
        {
            let stmt = &ast.statements[i];
            proof {
                assert(stmts.take(i + 1).drop_last() =~= stmts.take(i as int));
                assert(stmts.take(i + 1).last() == stmt@);
            }
            match &stmt.kind {
                StatementKind::DomainDecl(domain) => {
                    self.catalog_domain(domain, &mut errors);
                },
                StatementKind::EnvironmentDecl(env) => {
                    self.catalog_environment(env, &mut declared_environments);
                },
                _ => {},
            }
            i = i + 1;
        }
        assert(stmts.take(n as int) =~= stmts);
        let ghost c = catalog(v0, stmts);

        // Pass 2: deployments name a recorded domain and a declared environment.
        let mut i: usize = 0;
        while i < n
            invariant
                n == ast.statements@.len(),
                stmts == ast@.statements,
                i <= n,
                self@ == c.model,
                names_view(declared_environments@) == c.declared,
                errors_view(errors@) == c.errors + concat_map(
                    stmts.take(i as int),
                    deployment_rule(c.model.domains, c.declared),
                ),
            decreases n - i,
        {
            proof {
                lemma_concat_map_step(stmts, deployment_rule(c.model.domains, c.declared), i as int);
            }
            self.check_deployment(&ast.statements[i], &declared_environments, &mut errors);
            i = i + 1;
        }
        assert(stmts.take(n as int) =~= stmts);
        let ghost after_deployments = errors_view(errors@);

        // Pass 3: goals, invariants and transitions against the recorded state.
        let mut i: usize = 0;
        while i < n
            invariant
                n == ast.statements@.len(),
                stmts == ast@.statements,
                i <= n,
                self@ == c.model,
                c == catalog(v0, stmts),
                errors_view(errors@) == after_deployments + concat_map(
                    stmts.take(i as int),
                    domain_rule(c.model.domains),
                ),
            decreases n - i,
        {
            proof {
                lemma_concat_map_step(stmts, domain_rule(c.model.domains), i as int);
            }
            let stmt = &ast.statements[i];
            if let StatementKind::DomainDecl(domain) = &stmt.kind {
                proof {
                    lemma_catalog_records_domains(v0, stmts, i as int);
                }
                if let Some(domain_info) = self.domains.get(domain.name.as_str()) {
                    self.check_domain(domain, domain_info, &mut errors);
                }
            }
            i = i + 1;
        }
        assert(stmts.take(n as int) =~= stmts);

        if errors.len() == 0 {
            Ok(())
        } else {
            Err(errors)
        }
    }
}

} // verus!
