//! What a program that passes validation is guaranteed to satisfy, proved
//! from the rules.
use crate::ast::{
    scope_named, AuthorityScope, SpecDomainDecl, SpecExpr, SpecExprKind, SpecStateField, SpecStatement,
    SpecStatementKind,
};
use crate::semantic::rules::{
    catalog, catalog_step, concat_map, domain_info_of, fresh_validator, deploy_errors, deployment_rule, domain_catalog_errors,
    domain_errors, domain_rule, effects, effects_all, expr_errors, exprs_errors, field_pass,
    goal_authority, goal_authority_errors, goal_escalation, goal_purity, invariant_purity,
    at, error, is_true_literal, lemma_concat_map_empty, scope_errors, scope_text, transition_effect_errors,
    transition_errors, transition_escalation, transition_rule, validation_errors, vtype_of,
    SpecSemanticError, SpecVedType, ValidatorModel,
};
use crate::semantic::messages::{
    illegal_effect_message, illegal_mutation_message, shell_message, unbounded_loop_message,
    undefined_assignment_message, undefined_reference_message,
};
use vstd::prelude::*;

verus! {

/// Whether an expression neither assigns nor emits an effect, anywhere in it.
pub open spec fn side_effect_free(e: SpecExpr) -> bool
    decreases e,
{
    match e.kind {
        SpecExprKind::Assignment { .. } => false,
        SpecExprKind::Send { .. } => false,
        SpecExprKind::SendHigh { .. } => false,
        SpecExprKind::BinaryOp { left, op: _, right } => side_effect_free(*left) && side_effect_free(*right),
        SpecExprKind::If { condition, consequence } => side_effect_free(*condition) && all_side_effect_free(
            consequence,
        ),
        SpecExprKind::While { condition, body } => side_effect_free(*condition) && all_side_effect_free(body),
        SpecExprKind::Call { function: _, arguments } => all_side_effect_free(arguments),
        _ => true,
    }
}

pub open spec fn all_side_effect_free(es: Seq<SpecExpr>) -> bool
    decreases es,
{
    if es.len() == 0 {
        true
    } else {
        all_side_effect_free(es.drop_last()) && side_effect_free(es.last())
    }
}

/// Whether every state variable an expression reads or assigns is a field of `fields`.
pub open spec fn uses_declared_state(e: SpecExpr, fields: Map<Seq<char>, SpecVedType>) -> bool
    decreases e,
{
    match e.kind {
        SpecExprKind::Ident(name) => fields.contains_key(name),
        SpecExprKind::Assignment { target, value } => fields.contains_key(target) && uses_declared_state(
            *value,
            fields,
        ),
        SpecExprKind::BinaryOp { left, op: _, right } => uses_declared_state(*left, fields)
            && uses_declared_state(*right, fields),
        SpecExprKind::If { condition, consequence } => uses_declared_state(*condition, fields)
            && all_use_declared_state(consequence, fields),
        SpecExprKind::While { condition, body } => uses_declared_state(*condition, fields)
            && all_use_declared_state(body, fields),
        SpecExprKind::Call { function: _, arguments } => all_use_declared_state(arguments, fields),
        _ => true,
    }
}

pub open spec fn all_use_declared_state(es: Seq<SpecExpr>, fields: Map<Seq<char>, SpecVedType>) -> bool
    decreases es,
{
    if es.len() == 0 {
        true
    } else {
        all_use_declared_state(es.drop_last(), fields) && uses_declared_state(es.last(), fields)
    }
}

/// Whether an expression holds no unbounded `while (true)` loop and no call of `shell`.
pub open spec fn within_execution_limits(e: SpecExpr) -> bool
    decreases e,
{
    match e.kind {
        SpecExprKind::Assignment { target: _, value } => within_execution_limits(*value),
        SpecExprKind::BinaryOp { left, op: _, right } => within_execution_limits(*left)
            && within_execution_limits(*right),
        SpecExprKind::If { condition, consequence } => within_execution_limits(*condition)
            && all_within_execution_limits(consequence),
        SpecExprKind::While { condition, body } => !is_true_literal(*condition) && within_execution_limits(
            *condition,
        ) && all_within_execution_limits(body),
        SpecExprKind::Call { function, arguments } => function != "shell"@ && all_within_execution_limits(
            arguments,
        ),
        _ => true,
    }
}

pub open spec fn all_within_execution_limits(es: Seq<SpecExpr>) -> bool
    decreases es,
{
    if es.len() == 0 {
        true
    } else {
        all_within_execution_limits(es.drop_last()) && within_execution_limits(es.last())
    }
}

/// An expression without errors uses only declared state and stays within the
/// execution limits; in a pure context it is also free of side effects.
pub proof fn lemma_clean_expr(
    domain: Seq<char>,
    e: SpecExpr,
    fields: Map<Seq<char>, SpecVedType>,
    pure: bool,
)
    requires
        expr_errors(domain, e, fields, pure).len() == 0,
    ensures
        uses_declared_state(e, fields),
        within_execution_limits(e),
        pure ==> side_effect_free(e),
    decreases e,
{
    match e.kind {
        SpecExprKind::Assignment { target: _, value } => {
            lemma_clean_expr(domain, *value, fields, pure);
        },
        SpecExprKind::BinaryOp { left, op: _, right } => {
            lemma_clean_expr(domain, *left, fields, pure);
            lemma_clean_expr(domain, *right, fields, pure);
        },
        SpecExprKind::If { condition, consequence } => {
            lemma_clean_expr(domain, *condition, fields, pure);
            lemma_clean_exprs(domain, consequence, fields, pure);
        },
        SpecExprKind::While { condition, body } => {
            lemma_clean_expr(domain, *condition, fields, pure);
            lemma_clean_exprs(domain, body, fields, pure);
        },
        SpecExprKind::Call { function: _, arguments } => {
            lemma_clean_exprs(domain, arguments, fields, pure);
        },
        _ => {},
    }
}

/// The same for a list of expressions.
pub proof fn lemma_clean_exprs(
    domain: Seq<char>,
    es: Seq<SpecExpr>,
    fields: Map<Seq<char>, SpecVedType>,
    pure: bool,
)
    requires
        exprs_errors(domain, es, fields, pure).len() == 0,
    ensures
        all_use_declared_state(es, fields),
        all_within_execution_limits(es),
        pure ==> all_side_effect_free(es),
    decreases es,
{
    if es.len() > 0 {
        lemma_clean_exprs(domain, es.drop_last(), fields, pure);
        lemma_clean_expr(domain, es.last(), fields, pure);
    }
}

/// A side-effect-free expression emits no effect.
pub proof fn lemma_pure_emits_nothing(e: SpecExpr)
    requires
        side_effect_free(e),
    ensures
        effects(e).len() == 0,
    decreases e,
{
    match e.kind {
        SpecExprKind::BinaryOp { left, op: _, right } => {
            lemma_pure_emits_nothing(*left);
            lemma_pure_emits_nothing(*right);
        },
        SpecExprKind::If { condition, consequence } => {
            lemma_pure_emits_nothing(*condition);
            lemma_pure_list_emits_nothing(consequence);
        },
        SpecExprKind::While { condition, body } => {
            lemma_pure_emits_nothing(*condition);
            lemma_pure_list_emits_nothing(body);
        },
        SpecExprKind::Call { function: _, arguments } => {
            lemma_pure_list_emits_nothing(arguments);
        },
        _ => {},
    }
}

pub proof fn lemma_pure_list_emits_nothing(es: Seq<SpecExpr>)
    requires
        all_side_effect_free(es),
    ensures
        effects_all(es).len() == 0,
    decreases es,
{
    if es.len() > 0 {
        lemma_pure_list_emits_nothing(es.drop_last());
        lemma_pure_emits_nothing(es.last());
    }
}

/// The errors the first pass reports for one statement.
pub open spec fn catalog_errors_of(s: SpecStatement) -> Seq<SpecSemanticError> {
    match s.kind {
        SpecStatementKind::DomainDecl(d) => domain_catalog_errors(d),
        _ => Seq::empty(),
    }
}

pub open spec fn cataloging() -> spec_fn(SpecStatement) -> Seq<SpecSemanticError> {
    |s: SpecStatement| catalog_errors_of(s)
}

/// The first pass's errors are those of each statement in turn.
pub proof fn lemma_catalog_errors(v: ValidatorModel, stmts: Seq<SpecStatement>)
    ensures
        catalog(v, stmts).errors == concat_map(stmts, cataloging()),
    decreases stmts.len(),
{
    if stmts.len() > 0 {
        lemma_catalog_errors(v, stmts.drop_last());
    }
}

/// Whether a statement declares a domain named `name`.
pub open spec fn is_domain_named(s: SpecStatement, name: Seq<char>) -> bool {
    match s.kind {
        SpecStatementKind::DomainDecl(d) => d.name == name,
        _ => false,
    }
}

/// Whether a statement declares an environment named `name`.
pub open spec fn is_environment_named(s: SpecStatement, name: Seq<char>) -> bool {
    match s.kind {
        SpecStatementKind::EnvironmentDecl(e) => e.name == name,
        _ => false,
    }
}

/// Whether some statement of `stmts` declares a domain named `name`.
pub open spec fn declares_domain(stmts: Seq<SpecStatement>, name: Seq<char>) -> bool {
    exists|j: int| 0 <= j < stmts.len() && #[trigger] is_domain_named(stmts[j], name)
}

/// Whether some statement of `stmts` declares an environment named `name`.
pub open spec fn declares_environment(stmts: Seq<SpecStatement>, name: Seq<char>) -> bool {
    exists|j: int| 0 <= j < stmts.len() && #[trigger] is_environment_named(stmts[j], name)
}

/// After the first pass, the recorded domains are those recorded before and
/// those the program declares; the declared environments are the program's.
pub proof fn lemma_catalog_names(v: ValidatorModel, stmts: Seq<SpecStatement>, name: Seq<char>)
    ensures
        catalog(v, stmts).model.domains.contains_key(name) <==> (v.domains.contains_key(name)
            || declares_domain(stmts, name)),
        catalog(v, stmts).declared.contains(name) <==> declares_environment(stmts, name),
    decreases stmts.len(),
{
    if stmts.len() > 0 {
        let init = stmts.drop_last();
        lemma_catalog_names(v, init, name);
        let last = stmts.len() - 1;
        let c0 = catalog(v, init);
        let s = stmts[last];
        assert(stmts.last() == s);
        assert(catalog(v, stmts) == catalog_step(c0, s));
        assert(declares_domain(stmts, name) <==> declares_domain(init, name) || is_domain_named(s, name)) by {
            if declares_domain(init, name) {
                let j = choose|j: int| 0 <= j < init.len() && #[trigger] is_domain_named(init[j], name);
                assert(stmts[j] == init[j]);
            }
            if declares_domain(stmts, name) {
                let j = choose|j: int| 0 <= j < stmts.len() && #[trigger] is_domain_named(stmts[j], name);
                if j < last {
                    assert(init[j] == stmts[j]);
                }
            }
            if is_domain_named(s, name) {
                assert(is_domain_named(stmts[last], name));
            }
        }
        assert(declares_environment(stmts, name) <==> declares_environment(init, name)
            || is_environment_named(s, name)) by {
            if declares_environment(init, name) {
                let j = choose|j: int| 0 <= j < init.len() && #[trigger] is_environment_named(init[j], name);
                assert(stmts[j] == init[j]);
            }
            if declares_environment(stmts, name) {
                let j = choose|j: int| 0 <= j < stmts.len() && #[trigger] is_environment_named(stmts[j], name);
                if j < last {
                    assert(init[j] == stmts[j]);
                }
            }
            if is_environment_named(s, name) {
                assert(is_environment_named(stmts[last], name));
            }
        }
        match s.kind {
            SpecStatementKind::EnvironmentDecl(e) => {
                let ds = c0.declared.push(e.name);
                if c0.declared.contains(name) {
                    let k = choose|k: int| 0 <= k < c0.declared.len() && c0.declared[k] == name;
                    assert(ds[k] == name);
                }
                if e.name == name {
                    assert(ds[c0.declared.len() as int] == name);
                }
                if ds.contains(name) {
                    let k = choose|k: int| 0 <= k < ds.len() && ds[k] == name;
                    if k < c0.declared.len() {
                        assert(c0.declared[k] == name);
                    }
                }
            },
            _ => {},
        }
    }
}

/// The field map of a domain has exactly the names of its state fields.
pub proof fn lemma_field_pass_keys(domain: Seq<char>, fields: Seq<SpecStateField>, name: Seq<char>)
    ensures
        field_pass(domain, fields).0.contains_key(name) <==> exists|i: int| 0 <= i < fields.len() && (#[trigger] fields[i]).name == name,
    decreases fields.len(),
{
    if fields.len() > 0 {
        let init = fields.drop_last();
        lemma_field_pass_keys(domain, init, name);
        if exists|i: int| 0 <= i < init.len() && (#[trigger] init[i]).name == name {
            let i = choose|i: int| 0 <= i < init.len() && (#[trigger] init[i]).name == name;
            assert(fields[i] == init[i]);
        }
        if exists|i: int| 0 <= i < fields.len() && (#[trigger] fields[i]).name == name {
            let i = choose|i: int| 0 <= i < fields.len() && (#[trigger] fields[i]).name == name;
            if i < fields.len() - 1 {
                assert(init[i] == fields[i]);
            }
        }
    }
}

/// State fields read without errors have known types and distinct names, and
/// each is recorded with its type.
pub proof fn lemma_clean_fields(domain: Seq<char>, fields: Seq<SpecStateField>)
    requires
        field_pass(domain, fields).1.len() == 0,
    ensures
        forall|i: int| 0 <= i < fields.len() ==> !(vtype_of((#[trigger] fields[i]).typ) is Unknown),
        forall|i: int, k: int| 0 <= i < k < fields.len() ==> (#[trigger] fields[i]).name != (#[trigger] fields[k]).name,
        forall|i: int| 0 <= i < fields.len() ==> field_pass(domain, fields).0[(#[trigger] fields[i]).name] == vtype_of(fields[i].typ),
    decreases fields.len(),
{
    if fields.len() > 0 {
        let init = fields.drop_last();
        let last = fields.len() - 1;
        lemma_clean_fields(domain, init);
        assert forall|i: int| 0 <= i < last implies !field_pass(domain, init).0.contains_key(#[trigger] fields[i].name) == false by {
            assert(init[i] == fields[i]);
            lemma_field_pass_keys(domain, init, fields[i].name);
        }
        lemma_field_pass_keys(domain, init, fields[last].name);
        assert forall|i: int| 0 <= i < fields.len() implies !(vtype_of((#[trigger] fields[i]).typ) is Unknown) by {
            if i < last {
                assert(init[i] == fields[i]);
            }
        }
        assert forall|i: int, k: int| 0 <= i < k < fields.len() implies (#[trigger] fields[i]).name != (#[trigger] fields[k]).name by {
            assert(init[i] == fields[i]);
            if k < last {
                assert(init[k] == fields[k]);
            }
        }
        assert forall|i: int| 0 <= i < fields.len() implies field_pass(domain, fields).0[(#[trigger] fields[i]).name] == vtype_of(fields[i].typ) by {
            if i < last {
                assert(init[i] == fields[i]);
            }
        }
    }
}

/// Each statement of a program without errors passes each of the three passes.
pub proof fn lemma_clean_statement(v: ValidatorModel, stmts: Seq<SpecStatement>, j: int)
    requires
        validation_errors(v, stmts).len() == 0,
        0 <= j < stmts.len(),
    ensures
        catalog_errors_of(stmts[j]).len() == 0,
        deploy_errors(catalog(v, stmts).model.domains, catalog(v, stmts).declared, stmts[j]).len() == 0,
        domain_rule(catalog(v, stmts).model.domains)(stmts[j]).len() == 0,
{
    let c = catalog(v, stmts);
    lemma_catalog_errors(v, stmts);
    lemma_concat_map_empty(stmts, cataloging());
    lemma_concat_map_empty(stmts, deployment_rule(c.model.domains, c.declared));
    lemma_concat_map_empty(stmts, domain_rule(c.model.domains));
    assert(cataloging()(stmts[j]).len() == 0);
    assert(deployment_rule(c.model.domains, c.declared)(stmts[j]).len() == 0);
    assert(domain_rule(c.model.domains)(stmts[j]).len() == 0);
}

/// The statement at `j` of a program that passes validation, as a domain.
pub open spec fn domain_at(stmts: Seq<SpecStatement>, j: int) -> SpecDomainDecl {
    stmts[j].kind->DomainDecl_0
}

/// The state fields recorded for the domain at `j` once the program is cataloged.
pub open spec fn recorded_fields(v: ValidatorModel, stmts: Seq<SpecStatement>, j: int) -> Map<
    Seq<char>,
    SpecVedType,
> {
    catalog(v, stmts).model.domains[domain_at(stmts, j).name].state_fields
}

/// The third pass on a domain without errors passes each of its parts.
proof fn lemma_clean_domain(v: ValidatorModel, stmts: Seq<SpecStatement>, j: int)
    requires
        validation_errors(v, stmts).len() == 0,
        0 <= j < stmts.len(),
        stmts[j].kind is DomainDecl,
    ensures
        ({
            let d = domain_at(stmts, j);
            let fields = recorded_fields(v, stmts, j);
            &&& forall|k: int| 0 <= k < d.goals.len() ==> (#[trigger] goal_purity(d.name, fields)(d.goals[k])).len() == 0
            &&& forall|k: int| 0 <= k < d.invariants.len() ==> (#[trigger] invariant_purity(d.name, fields)(d.invariants[k])).len() == 0
            &&& forall|k: int| 0 <= k < d.transitions.len() ==> (#[trigger] transition_rule(d, fields)(d.transitions[k])).len() == 0
            &&& forall|k: int| 0 <= k < d.goals.len() ==> (#[trigger] goal_authority(d)(d.goals[k])).len() == 0
            &&& domain_catalog_errors(d).len() == 0
        }),
{
    let d = domain_at(stmts, j);
    let c = catalog(v, stmts);
    let info = c.model.domains[d.name];
    lemma_clean_statement(v, stmts, j);
    assert(domain_errors(d, info).len() == 0);
    lemma_concat_map_empty(d.goals, goal_purity(d.name, info.state_fields));
    lemma_concat_map_empty(d.invariants, invariant_purity(d.name, info.state_fields));
    lemma_concat_map_empty(d.transitions, transition_rule(d, info.state_fields));
    lemma_concat_map_empty(d.goals, goal_authority(d));
}

/// Goals and invariants are strictly pure: in a program that passes
/// validation, no goal target and no invariant predicate assigns state or
/// emits an effect.
pub proof fn law_validated_goals_and_invariants_are_pure(v: ValidatorModel, stmts: Seq<SpecStatement>, j: int)
    requires
        validation_errors(v, stmts).len() == 0,
        0 <= j < stmts.len(),
        stmts[j].kind is DomainDecl,
    ensures
        forall|k: int| 0 <= k < domain_at(stmts, j).goals.len() ==> side_effect_free(
            (#[trigger] domain_at(stmts, j).goals[k]).target,
        ) && effects(domain_at(stmts, j).goals[k].target).len() == 0,
        forall|k: int| 0 <= k < domain_at(stmts, j).invariants.len() ==> side_effect_free(
            (#[trigger] domain_at(stmts, j).invariants[k]).predicate,
        ),
{
    let d = domain_at(stmts, j);
    let fields = recorded_fields(v, stmts, j);
    lemma_clean_domain(v, stmts, j);
    assert forall|k: int| 0 <= k < d.goals.len() implies side_effect_free((#[trigger] d.goals[k]).target)
        && effects(d.goals[k].target).len() == 0 by {
        assert(goal_purity(d.name, fields)(d.goals[k]).len() == 0);
        lemma_clean_expr(d.name, d.goals[k].target, fields, true);
        lemma_pure_emits_nothing(d.goals[k].target);
    }
    assert forall|k: int| 0 <= k < d.invariants.len() implies side_effect_free(
        (#[trigger] d.invariants[k]).predicate,
    ) by {
        assert(invariant_purity(d.name, fields)(d.invariants[k]).len() == 0);
        lemma_clean_expr(d.name, d.invariants[k].predicate, fields, true);
    }
}

/// In a program that passes validation, every state variable that a domain's
/// goals, invariants and transition steps read or assign is a state field
/// recorded for the domain, and no step holds a `while (true)` loop or a call
/// of `shell`.
pub proof fn law_validated_state_references_are_declared(
    v: ValidatorModel,
    stmts: Seq<SpecStatement>,
    j: int,
)
    requires
        validation_errors(v, stmts).len() == 0,
        0 <= j < stmts.len(),
        stmts[j].kind is DomainDecl,
    ensures
        forall|k: int| 0 <= k < domain_at(stmts, j).goals.len() ==> uses_declared_state(
            (#[trigger] domain_at(stmts, j).goals[k]).target,
            recorded_fields(v, stmts, j),
        ) && within_execution_limits(domain_at(stmts, j).goals[k].target),
        forall|k: int| 0 <= k < domain_at(stmts, j).invariants.len() ==> uses_declared_state(
            (#[trigger] domain_at(stmts, j).invariants[k]).predicate,
            recorded_fields(v, stmts, j),
        ) && within_execution_limits(domain_at(stmts, j).invariants[k].predicate),
        forall|k: int| 0 <= k < domain_at(stmts, j).transitions.len() ==> all_use_declared_state(
            (#[trigger] domain_at(stmts, j).transitions[k]).slice_step,
            recorded_fields(v, stmts, j),
        ) && all_within_execution_limits(domain_at(stmts, j).transitions[k].slice_step),
{
    let d = domain_at(stmts, j);
    let fields = recorded_fields(v, stmts, j);
    lemma_clean_domain(v, stmts, j);
    assert forall|k: int| 0 <= k < d.goals.len() implies uses_declared_state((#[trigger] d.goals[k]).target, fields)
        && within_execution_limits(d.goals[k].target) by {
        assert(goal_purity(d.name, fields)(d.goals[k]).len() == 0);
        lemma_clean_expr(d.name, d.goals[k].target, fields, true);
    }
    assert forall|k: int| 0 <= k < d.invariants.len() implies uses_declared_state(
        (#[trigger] d.invariants[k]).predicate,
        fields,
    ) && within_execution_limits(d.invariants[k].predicate) by {
        assert(invariant_purity(d.name, fields)(d.invariants[k]).len() == 0);
        lemma_clean_expr(d.name, d.invariants[k].predicate, fields, true);
    }
    assert forall|k: int| 0 <= k < d.transitions.len() implies all_use_declared_state(
        (#[trigger] d.transitions[k]).slice_step,
        fields,
    ) && all_within_execution_limits(d.transitions[k].slice_step) by {
        assert(transition_rule(d, fields)(d.transitions[k]).len() == 0);
        assert(transition_errors(d, fields, d.transitions[k]).len() == 0);
        lemma_clean_exprs(d.name, d.transitions[k].slice_step, fields, false);
    }
}

/// Capabilities never escalate: in a program that passes validation, every
/// capability a transition or a goal requires is one its domain requires, and
/// a transition whose steps emit effects requires `messaging`.
pub proof fn law_validated_capabilities_stay_within_domain(
    v: ValidatorModel,
    stmts: Seq<SpecStatement>,
    j: int,
)
    requires
        validation_errors(v, stmts).len() == 0,
        0 <= j < stmts.len(),
        stmts[j].kind is DomainDecl,
    ensures
        forall|k: int, r: int|
            0 <= k < domain_at(stmts, j).transitions.len() && 0 <= r < domain_at(
                stmts,
                j,
            ).transitions[k].required_capabilities.len() ==> domain_at(
                stmts,
                j,
            ).required_capabilities.contains(
                #[trigger] domain_at(stmts, j).transitions[k].required_capabilities[r],
            ),
        forall|k: int|
            0 <= k < domain_at(stmts, j).transitions.len() && effects_all(
                (#[trigger] domain_at(stmts, j).transitions[k]).slice_step,
            ).len() > 0 ==> domain_at(stmts, j).transitions[k].required_capabilities.contains("messaging"@),
        forall|k: int, r: int|
            0 <= k < domain_at(stmts, j).goals.len() && 0 <= r < domain_at(
                stmts,
                j,
            ).goals[k].required_capabilities.len() ==> domain_at(stmts, j).required_capabilities.contains(
                #[trigger] domain_at(stmts, j).goals[k].required_capabilities[r],
            ),
{
    let d = domain_at(stmts, j);
    let fields = recorded_fields(v, stmts, j);
    lemma_clean_domain(v, stmts, j);
    assert forall|k: int, r: int|
        0 <= k < d.transitions.len() && 0 <= r < d.transitions[k].required_capabilities.len() implies d.required_capabilities.contains(
        #[trigger] d.transitions[k].required_capabilities[r],
    ) by {
        let t = d.transitions[k];
        assert(transition_rule(d, fields)(t).len() == 0);
        assert(transition_errors(d, fields, t).len() == 0);
        lemma_concat_map_empty(t.required_capabilities, transition_escalation(d, t));
        assert(transition_escalation(d, t)(t.required_capabilities[r]).len() == 0);
    }
    assert forall|k: int|
        0 <= k < d.transitions.len() && effects_all((#[trigger] d.transitions[k]).slice_step).len()
            > 0 implies d.transitions[k].required_capabilities.contains("messaging"@) by {
        let t = d.transitions[k];
        assert(transition_rule(d, fields)(t).len() == 0);
        assert(transition_errors(d, fields, t).len() == 0);
        assert(transition_effect_errors(d, t).len() == 0);
    }
    assert forall|k: int, r: int|
        0 <= k < d.goals.len() && 0 <= r < d.goals[k].required_capabilities.len() implies d.required_capabilities.contains(
        #[trigger] d.goals[k].required_capabilities[r],
    ) by {
        let g = d.goals[k];
        assert(goal_authority(d)(g).len() == 0);
        assert(goal_authority_errors(d, g).len() == 0);
        lemma_concat_map_empty(g.required_capabilities, goal_escalation(d, g));
        assert(goal_escalation(d, g)(g.required_capabilities[r]).len() == 0);
    }
}

/// In a program that passes validation, every state field of a domain has a
/// known type (`int`, `string` or `bool`), no two share a name, and a domain
/// of scope `transition` declares no state, goals or invariants, one of scope
/// `goal` no state or invariants.
pub proof fn law_validated_declarations_are_well_formed(
    v: ValidatorModel,
    stmts: Seq<SpecStatement>,
    j: int,
)
    requires
        validation_errors(v, stmts).len() == 0,
        0 <= j < stmts.len(),
        stmts[j].kind is DomainDecl,
    ensures
        forall|i: int| 0 <= i < domain_at(stmts, j).state.len() ==> !(vtype_of(
            (#[trigger] domain_at(stmts, j).state[i]).typ,
        ) is Unknown),
        forall|i: int, k: int|
            0 <= i < k < domain_at(stmts, j).state.len() ==> (#[trigger] domain_at(stmts, j).state[i]).name
                != (#[trigger] domain_at(stmts, j).state[k]).name,
        domain_at(stmts, j).scope == Some(AuthorityScope::Transition) ==> domain_at(stmts, j).state.len() == 0
            && domain_at(stmts, j).goals.len() == 0 && domain_at(stmts, j).invariants.len() == 0,
        domain_at(stmts, j).scope == Some(AuthorityScope::Goal) ==> domain_at(stmts, j).state.len() == 0
            && domain_at(stmts, j).invariants.len() == 0,
{
    let d = domain_at(stmts, j);
    lemma_clean_domain(v, stmts, j);
    assert(field_pass(d.name, d.state).1.len() == 0);
    assert(scope_errors(d).len() == 0);
    lemma_clean_fields(d.name, d.state);
}

/// In a program that passes validation, every deployment names a domain that
/// was recorded before or that the program declares, and a target environment
/// that the program declares.
pub proof fn law_validated_deployments_resolve(v: ValidatorModel, stmts: Seq<SpecStatement>, j: int)
    requires
        validation_errors(v, stmts).len() == 0,
        0 <= j < stmts.len(),
        stmts[j].kind is DeployStmt,
    ensures
        v.domains.contains_key(stmts[j].kind->DeployStmt_0.service) || declares_domain(
            stmts,
            stmts[j].kind->DeployStmt_0.service,
        ),
        declares_environment(stmts, stmts[j].kind->DeployStmt_0.target_environment),
{
    let dep = stmts[j].kind->DeployStmt_0;
    lemma_clean_statement(v, stmts, j);
    lemma_catalog_names(v, stmts, dep.service);
    lemma_catalog_names(v, stmts, dep.target_environment);
}

/// The scope text recorded for an environment reads back, through
/// `AuthorityScope::from_str`, as the scope it was declared with.
pub proof fn law_recorded_scope_reads_back(a: AuthorityScope)
    ensures
        scope_named(scope_text(Some(a))) == Some(a),
{
    reveal_strlit("root");
    reveal_strlit("domain");
    reveal_strlit("goal");
    reveal_strlit("transition");
    assert("domain"@.len() == 6 && "root"@.len() == 4 && "goal"@.len() == 4 && "transition"@.len() == 10);
    assert("domain"@ != "root"@);
    assert("goal"@[0] != "root"@[0]);
    assert("goal"@ != "root"@ && "goal"@ != "domain"@);
    assert("transition"@ != "root"@ && "transition"@ != "domain"@ && "transition"@ != "goal"@);
}

/// The first pass from any records is the first pass from none, laid over
/// them: what the program declares replaces what was recorded under the same
/// name, and the declared environments and the errors do not depend on the
/// records at all.
pub proof fn lemma_catalog_overlay(v: ValidatorModel, stmts: Seq<SpecStatement>)
    ensures
        catalog(v, stmts).model.domains == v.domains.union_prefer_right(
            catalog(fresh_validator(), stmts).model.domains,
        ),
        catalog(v, stmts).model.environment_capabilities == v.environment_capabilities.union_prefer_right(
            catalog(fresh_validator(), stmts).model.environment_capabilities,
        ),
        catalog(v, stmts).model.environment_scopes == v.environment_scopes.union_prefer_right(
            catalog(fresh_validator(), stmts).model.environment_scopes,
        ),
        catalog(v, stmts).declared == catalog(fresh_validator(), stmts).declared,
        catalog(v, stmts).errors == catalog(fresh_validator(), stmts).errors,
    decreases stmts.len(),
{
    let f = fresh_validator();
    if stmts.len() == 0 {
        assert(v.domains.union_prefer_right(f.domains) =~= v.domains);
        assert(v.environment_capabilities.union_prefer_right(f.environment_capabilities) =~= v.environment_capabilities);
        assert(v.environment_scopes.union_prefer_right(f.environment_scopes) =~= v.environment_scopes);
    } else {
        let init = stmts.drop_last();
        lemma_catalog_overlay(v, init);
        let a = catalog(v, init);
        let b = catalog(f, init);
        match stmts.last().kind {
            SpecStatementKind::DomainDecl(d) => {
                assert(a.model.domains.insert(d.name, domain_info_of(d)) =~= v.domains.union_prefer_right(
                    b.model.domains.insert(d.name, domain_info_of(d)),
                ));
            },
            SpecStatementKind::EnvironmentDecl(e) => {
                assert(a.model.environment_capabilities.insert(e.name, e.available_capabilities)
                    =~= v.environment_capabilities.union_prefer_right(
                    b.model.environment_capabilities.insert(e.name, e.available_capabilities),
                ));
                assert(a.model.environment_scopes.insert(e.name, scope_text(e.scope_level))
                    =~= v.environment_scopes.union_prefer_right(
                    b.model.environment_scopes.insert(e.name, scope_text(e.scope_level)),
                ));
            },
            _ => {},
        }
    }
}

/// Validating a program again, on the records its first validation left,
/// reports the same errors and leaves the same records.
pub proof fn law_revalidation_is_stable(v: ValidatorModel, stmts: Seq<SpecStatement>)
    ensures
        catalog(catalog(v, stmts).model, stmts).model == catalog(v, stmts).model,
        validation_errors(catalog(v, stmts).model, stmts) == validation_errors(v, stmts),
{
    let w = catalog(v, stmts).model;
    let p = catalog(fresh_validator(), stmts).model;
    lemma_catalog_overlay(v, stmts);
    lemma_catalog_overlay(w, stmts);
    assert(w.domains.union_prefer_right(p.domains) =~= w.domains);
    assert(w.environment_capabilities.union_prefer_right(p.environment_capabilities) =~= w.environment_capabilities);
    assert(w.environment_scopes.union_prefer_right(p.environment_scopes) =~= w.environment_scopes);
}

/// The text that the errors only a pure context reports begin with.
pub open spec fn purity_error_prefix(domain: Seq<char>) -> Seq<char> {
    "Domain '"@ + domain + "': Illegal "@
}

/// Whether an error is other than those only a pure context reports (an
/// illegal mutation or an illegal effect).
pub open spec fn not_purity_error(domain: Seq<char>) -> spec_fn(SpecSemanticError) -> bool {
    |x: SpecSemanticError| !purity_error_prefix(domain).is_prefix_of(x.message)
}

/// A message `"Domain '" + domain + tail` is a purity error exactly when the
/// first 11 characters of `tail` are those of `': Illegal `.
proof fn lemma_domain_message_prefix(domain: Seq<char>, tail: Seq<char>, rest: Seq<char>)
    requires
        tail.len() >= 11,
    ensures
        purity_error_prefix(domain).is_prefix_of("Domain '"@ + domain + tail + rest) <==> tail.subrange(
            0,
            11,
        ) == "': Illegal "@,
{
    reveal_strlit("': Illegal ");
    let a = "Domain '"@ + domain;
    let m = a + tail + rest;
    let pre = purity_error_prefix(domain);
    assert(pre.len() == a.len() + 11);
    if pre.is_prefix_of(m) {
        assert forall|i: int| 0 <= i < 11 implies tail.subrange(0, 11)[i] == "': Illegal "@[i] by {
            assert(m[a.len() + i] == pre[a.len() + i]);
        }
        assert(tail.subrange(0, 11) =~= "': Illegal "@);
    }
    if tail.subrange(0, 11) == "': Illegal "@ {
        assert forall|i: int| 0 <= i < pre.len() implies m[i] == pre[i] by {
            if i >= a.len() {
                assert(tail.subrange(0, 11)[i - a.len()] == tail[i - a.len()]);
            }
        }
        assert(pre =~= m.subrange(0, pre.len() as int));
    }
}

/// Which of the expression errors are purity errors: the illegal mutations and
/// effects are, the others are not.
proof fn lemma_purity_errors(domain: Seq<char>, name: Seq<char>)
    ensures
        purity_error_prefix(domain).is_prefix_of(illegal_mutation_message(domain, name)),
        purity_error_prefix(domain).is_prefix_of(illegal_effect_message(domain, "send"@)),
        purity_error_prefix(domain).is_prefix_of(illegal_effect_message(domain, "send_high"@)),
        !purity_error_prefix(domain).is_prefix_of(undefined_reference_message(domain, name)),
        !purity_error_prefix(domain).is_prefix_of(undefined_assignment_message(domain, name)),
        !purity_error_prefix(domain).is_prefix_of(unbounded_loop_message(domain)),
        !purity_error_prefix(domain).is_prefix_of(shell_message()),
{
    reveal_strlit("': Illegal ");
    reveal_strlit("': Illegal mutation of '");
    reveal_strlit("': Illegal effect '");
    reveal_strlit("': Reference to undefined state variable '");
    reveal_strlit("': Cannot assign to undefined state variable '");
    reveal_strlit("': Unbounded `while(true)` loops are forbidden to preserve slice computation bounds.");
    reveal_strlit("E001: Execution authority violation\nManual context mutation detected: `shell(...)` is forbidden.\n\nRequired: environment-bound capability\nFound: local session context\n\nResolution:\nBind operation to declared environment block.");
    reveal_strlit("Domain '");
    let mutation = "': Illegal mutation of '"@;
    lemma_domain_message_prefix(domain, mutation, name + "'. Goals must be strictly read-only and side-effect free."@);
    assert(mutation.subrange(0, 11) =~= "': Illegal "@);
    assert(illegal_mutation_message(domain, name) =~= "Domain '"@ + domain + mutation + (name
        + "'. Goals must be strictly read-only and side-effect free."@));
    let effect = "': Illegal effect '"@;
    assert(effect.subrange(0, 11) =~= "': Illegal "@);
    lemma_domain_message_prefix(domain, effect, "send"@ + "'. Goals must be strictly side-effect free."@);
    assert(illegal_effect_message(domain, "send"@) =~= "Domain '"@ + domain + effect + ("send"@
        + "'. Goals must be strictly side-effect free."@));
    lemma_domain_message_prefix(domain, effect, "send_high"@ + "'. Goals must be strictly side-effect free."@);
    assert(illegal_effect_message(domain, "send_high"@) =~= "Domain '"@ + domain + effect + ("send_high"@
        + "'. Goals must be strictly side-effect free."@));
    let reference = "': Reference to undefined state variable '"@;
    lemma_domain_message_prefix(domain, reference, name + "'"@);
    assert(reference.subrange(0, 11)[3] != "': Illegal "@[3]);
    assert(undefined_reference_message(domain, name) =~= "Domain '"@ + domain + reference + (name + "'"@));
    let assignment = "': Cannot assign to undefined state variable '"@;
    lemma_domain_message_prefix(domain, assignment, name + "'"@);
    assert(assignment.subrange(0, 11)[3] != "': Illegal "@[3]);
    assert(undefined_assignment_message(domain, name) =~= "Domain '"@ + domain + assignment + (name + "'"@));
    let unbounded = "': Unbounded `while(true)` loops are forbidden to preserve slice computation bounds."@;
    lemma_domain_message_prefix(domain, unbounded, Seq::empty());
    assert(unbounded.subrange(0, 11)[3] != "': Illegal "@[3]);
    assert(unbounded_loop_message(domain) =~= "Domain '"@ + domain + unbounded + Seq::<char>::empty());
    let pre = purity_error_prefix(domain);
    if pre.is_prefix_of(shell_message()) {
        assert(shell_message()[0] == pre[0]);
    }
}

/// Filtering a one-error list keeps the error exactly when the test holds of it.
proof fn lemma_filter_one(x: SpecSemanticError, pred: spec_fn(SpecSemanticError) -> bool)
    ensures
        seq![x].filter(pred) == (if pred(x) { seq![x] } else { Seq::empty() }),
{
    reveal_with_fuel(Seq::filter, 2);
    assert(seq![x].drop_last() =~= Seq::<SpecSemanticError>::empty());
}

/// An expression outside a pure context reports the errors it reports in a
/// pure context, in the same order, without the illegal mutations and
/// effects: the context adds those errors and changes nothing else.
pub proof fn law_pure_context_only_adds_purity_errors(
    domain: Seq<char>,
    e: SpecExpr,
    fields: Map<Seq<char>, SpecVedType>,
)
    ensures
        expr_errors(domain, e, fields, false) == expr_errors(domain, e, fields, true).filter(
            not_purity_error(domain),
        ),
    decreases e,
{
    let f = not_purity_error(domain);
    broadcast use Seq::filter_distributes_over_add;
    reveal_with_fuel(Seq::filter, 1);
    assert(Seq::<SpecSemanticError>::empty().filter(f) =~= Seq::<SpecSemanticError>::empty());
    match e.kind {
        SpecExprKind::Ident(name) => {
            lemma_purity_errors(domain, name);
            lemma_filter_one(error(undefined_reference_message(domain, name), at(e.span)), f);
        },
        SpecExprKind::Assignment { target, value } => {
            lemma_purity_errors(domain, target);
            lemma_filter_one(error(illegal_mutation_message(domain, target), at(e.span)), f);
            lemma_filter_one(error(undefined_assignment_message(domain, target), at(e.span)), f);
            law_pure_context_only_adds_purity_errors(domain, *value, fields);
        },
        SpecExprKind::BinaryOp { left, op: _, right } => {
            law_pure_context_only_adds_purity_errors(domain, *left, fields);
            law_pure_context_only_adds_purity_errors(domain, *right, fields);
        },
        SpecExprKind::If { condition, consequence } => {
            law_pure_context_only_adds_purity_errors(domain, *condition, fields);
            lemma_pure_context_list(domain, consequence, fields);
        },
        SpecExprKind::While { condition, body } => {
            lemma_purity_errors(domain, Seq::empty());
            lemma_filter_one(error(unbounded_loop_message(domain), at(e.span)), f);
            law_pure_context_only_adds_purity_errors(domain, *condition, fields);
            lemma_pure_context_list(domain, body, fields);
        },
        SpecExprKind::Send { .. } => {
            lemma_purity_errors(domain, Seq::empty());
            lemma_filter_one(error(illegal_effect_message(domain, "send"@), at(e.span)), f);
        },
        SpecExprKind::SendHigh { .. } => {
            lemma_purity_errors(domain, Seq::empty());
            lemma_filter_one(error(illegal_effect_message(domain, "send_high"@), at(e.span)), f);
        },
        SpecExprKind::Call { function: _, arguments } => {
            lemma_purity_errors(domain, Seq::empty());
            lemma_filter_one(error(shell_message(), at(e.span)), f);
            lemma_pure_context_list(domain, arguments, fields);
        },
        _ => {},
    }
}

/// The same for a list of expressions.
pub proof fn lemma_pure_context_list(
    domain: Seq<char>,
    es: Seq<SpecExpr>,
    fields: Map<Seq<char>, SpecVedType>,
)
    ensures
        exprs_errors(domain, es, fields, false) == exprs_errors(domain, es, fields, true).filter(
            not_purity_error(domain),
        ),
    decreases es,
{
    broadcast use Seq::filter_distributes_over_add;
    reveal_with_fuel(Seq::filter, 1);
    if es.len() > 0 {
        lemma_pure_context_list(domain, es.drop_last(), fields);
        law_pure_context_only_adds_purity_errors(domain, es.last(), fields);
    } else {
        assert(Seq::<SpecSemanticError>::empty().filter(not_purity_error(domain)) =~= Seq::<
            SpecSemanticError,
        >::empty());
    }
}

/// Whether an expression holds a `send` or `send_high` anywhere in it: as
/// itself, in an assigned value, in either operand, in a condition, in any
/// step of an `if` or `while` body, or in any call argument.
pub open spec fn contains_send(e: SpecExpr) -> bool
    decreases e,
{
    match e.kind {
        SpecExprKind::Send { .. } => true,
        SpecExprKind::SendHigh { .. } => true,
        SpecExprKind::Assignment { target: _, value } => contains_send(*value),
        SpecExprKind::BinaryOp { left, op: _, right } => contains_send(*left) || contains_send(*right),
        SpecExprKind::If { condition, consequence } => contains_send(*condition) || any_contains_send(consequence),
        SpecExprKind::While { condition, body } => contains_send(*condition) || any_contains_send(body),
        SpecExprKind::Call { function: _, arguments } => any_contains_send(arguments),
        _ => false,
    }
}

/// Whether some expression of a list holds a `send` or `send_high`.
pub open spec fn any_contains_send(es: Seq<SpecExpr>) -> bool
    decreases es,
{
    es.len() > 0 && (any_contains_send(es.drop_last()) || contains_send(es.last()))
}

/// Every `send` and `send_high`, at any depth, is counted as an effect: an
/// expression emits effects exactly when it holds one.
pub proof fn law_every_send_is_an_effect(e: SpecExpr)
    ensures
        contains_send(e) <==> effects(e).len() > 0,
    decreases e,
{
    match e.kind {
        SpecExprKind::Assignment { target: _, value } => {
            law_every_send_is_an_effect(*value);
        },
        SpecExprKind::BinaryOp { left, op: _, right } => {
            law_every_send_is_an_effect(*left);
            law_every_send_is_an_effect(*right);
        },
        SpecExprKind::If { condition, consequence } => {
            law_every_send_is_an_effect(*condition);
            lemma_every_send_in_list(consequence);
        },
        SpecExprKind::While { condition, body } => {
            law_every_send_is_an_effect(*condition);
            lemma_every_send_in_list(body);
        },
        SpecExprKind::Call { function: _, arguments } => {
            lemma_every_send_in_list(arguments);
        },
        _ => {},
    }
}

/// The same for a list of expressions.
pub proof fn lemma_every_send_in_list(es: Seq<SpecExpr>)
    ensures
        any_contains_send(es) <==> effects_all(es).len() > 0,
    decreases es,
{
    if es.len() > 0 {
        lemma_every_send_in_list(es.drop_last());
        law_every_send_is_an_effect(es.last());
    }
}

/// In a program that passes validation, a transition any of whose steps holds
/// a `send` or `send_high`, at any depth, requires the `messaging` capability,
/// and no goal target holds one.
pub proof fn law_validated_senders_have_messaging(v: ValidatorModel, stmts: Seq<SpecStatement>, j: int)
    requires
        validation_errors(v, stmts).len() == 0,
        0 <= j < stmts.len(),
        stmts[j].kind is DomainDecl,
    ensures
        forall|k: int|
            0 <= k < domain_at(stmts, j).transitions.len() && any_contains_send(
                (#[trigger] domain_at(stmts, j).transitions[k]).slice_step,
            ) ==> domain_at(stmts, j).transitions[k].required_capabilities.contains("messaging"@),
        forall|k: int|
            0 <= k < domain_at(stmts, j).goals.len() ==> !contains_send(
                (#[trigger] domain_at(stmts, j).goals[k]).target,
            ),
{
    let d = domain_at(stmts, j);
    law_validated_capabilities_stay_within_domain(v, stmts, j);
    law_validated_goals_and_invariants_are_pure(v, stmts, j);
    assert forall|k: int|
        0 <= k < d.transitions.len() && any_contains_send((#[trigger] d.transitions[k]).slice_step) implies d.transitions[k].required_capabilities.contains(
        "messaging"@,
    ) by {
        lemma_every_send_in_list(d.transitions[k].slice_step);
    }
    assert forall|k: int| 0 <= k < d.goals.len() implies !contains_send((#[trigger] d.goals[k]).target) by {
        law_every_send_is_an_effect(d.goals[k].target);
    }
}

} // verus!
