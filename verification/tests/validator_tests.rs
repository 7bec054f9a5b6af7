use lexum_compiler::ast::{
    Ast, AuthorityScope, DomainDecl, EnvironmentDecl, Expr, ExprKind, GoalDecl, InvariantDecl, StateField,
    Statement, StatementKind,
};
use lexum_compiler::lexer::{lex, Span};
use lexum_compiler::parser::parse;
use lexum_compiler::semantic::{SemanticError, SemanticValidator};

fn validate(source: &str) -> Result<(), Vec<SemanticError>> {
    let ast = parse(lex(source)).unwrap();
    SemanticValidator::new().validate(&ast)
}

fn messages(source: &str) -> Vec<String> {
    match validate(source) {
        Ok(()) => Vec::new(),
        Err(errors) => errors.into_iter().map(|e| e.message).collect(),
    }
}

fn span(offset: usize, len: usize) -> Span {
    Span { offset, len, line: 1, column: offset + 1 }
}

fn ident(name: &str) -> Expr {
    Expr { kind: ExprKind::Ident(name.to_string()), span: span(0, name.len()) }
}

fn assign(target: &str, value: Expr) -> Expr {
    Expr { kind: ExprKind::Assignment { target: target.to_string(), value: Box::new(value) }, span: span(0, 1) }
}

fn domain_stmt(domain: DomainDecl) -> Statement {
    Statement { kind: StatementKind::DomainDecl(domain), span: span(0, 1) }
}

fn empty_domain(name: &str) -> DomainDecl {
    DomainDecl {
        name: name.to_string(),
        scope: None,
        required_capabilities: Vec::new(),
        state: Vec::new(),
        goals: Vec::new(),
        transitions: Vec::new(),
        invariants: Vec::new(),
    }
}

#[test]
fn unknown_field_type_is_reported_with_the_field_span() {
    let source = "domain D { state { x: float } }";
    let ast = parse(lex(source)).unwrap();
    let errors = SemanticValidator::new().validate(&ast).unwrap_err();
    assert_eq!(errors.len(), 1);
    assert_eq!(errors[0].message, "Domain 'D': Unknown type 'float' for field 'x'");
    assert_eq!(errors[0].span.offset, 19);
    assert_eq!(errors[0].span.len, 8);
}

#[test]
fn duplicate_field_is_reported_once() {
    assert_eq!(
        messages("domain D { state { x: int x: bool } }"),
        vec!["Domain 'D': Duplicate state field 'x'".to_string()]
    );
}

#[test]
fn unknown_and_duplicate_field_are_both_reported() {
    assert_eq!(
        messages("domain D { state { x: int x: text } }"),
        vec![
            "Domain 'D': Unknown type 'text' for field 'x'".to_string(),
            "Domain 'D': Duplicate state field 'x'".to_string(),
        ]
    );
}

fn field(name: &str, typ: &str) -> StateField {
    StateField { name: name.to_string(), typ: typ.to_string(), span: span(0, 1) }
}

fn scoped_domain(scope: AuthorityScope) -> DomainDecl {
    let mut domain = empty_domain("D");
    domain.scope = Some(scope);
    domain
}

#[test]
fn transition_scoped_domain_may_not_declare_state() {
    let mut domain = scoped_domain(AuthorityScope::Transition);
    domain.state.push(field("x", "int"));
    let ast = Ast { statements: vec![domain_stmt(domain)] };
    let errors = SemanticValidator::new().validate(&ast).unwrap_err();
    assert_eq!(errors.len(), 1);
    assert_eq!(
        errors[0].message,
        "Domain 'D' with scope 'transition' cannot declare state, goals, or invariants"
    );
    assert_eq!(errors[0].span.offset, 0);
    assert_eq!(errors[0].span.len, 0);
}

#[test]
fn goal_scoped_domain_may_not_declare_state() {
    let mut domain = scoped_domain(AuthorityScope::Goal);
    domain.state.push(field("x", "int"));
    let ast = Ast { statements: vec![domain_stmt(domain)] };
    let errors = SemanticValidator::new().validate(&ast).unwrap_err();
    assert_eq!(errors.len(), 1);
    assert_eq!(errors[0].message, "Domain 'D' with scope 'goal' cannot declare state or invariants");
}

#[test]
fn goal_scoped_domain_may_declare_goals() {
    let mut domain = scoped_domain(AuthorityScope::Goal);
    domain.goals.push(GoalDecl {
        name: "g".to_string(),
        scope: None,
        required_capabilities: Vec::new(),
        target: Expr { kind: ExprKind::BoolLiteral(true), span: span(0, 4) },
        strategy: Vec::new(),
        priority: 1,
        span: span(0, 1),
    });
    let ast = Ast { statements: vec![domain_stmt(domain)] };
    assert!(SemanticValidator::new().validate(&ast).is_ok());
}

#[test]
fn root_scoped_domain_may_declare_state() {
    assert!(validate("domain D { scope { root } state { x: int } }").is_ok());
}

#[test]
fn scope_keywords_cannot_be_written_as_scope_names() {
    let err = parse(lex("domain D { scope { goal } }")).unwrap_err();
    assert_eq!(err.message, "Expected identifier in domain scope");
}

#[test]
fn deployment_of_unknown_service_to_undeclared_environment() {
    let errors = validate("deploy service api to prod").unwrap_err();
    assert_eq!(errors.len(), 2);
    assert_eq!(errors[0].message, "E002: Unknown service 'api' in deployment statement.");
    assert_eq!(
        errors[1].message,
        "E001: Execution authority violation\nManual context mutation detected.\n\nRequired: environment-bound capability\nFound: undeclared environment 'prod'\n\nResolution:\nBind operation to a declared environment block."
    );
    assert_eq!(errors[0].span.offset, 0);
    assert_eq!(errors[0].span.len, 26);
}

#[test]
fn deployment_of_declared_domain_to_declared_environment_passes() {
    assert!(validate("domain api { } environment prod { replicas = 2 } deploy api to prod").is_ok());
}

#[test]
fn environment_must_be_declared_in_the_same_program() {
    let mut validator = SemanticValidator::new();
    let first = parse(lex("domain api { } environment prod { }")).unwrap();
    assert!(validator.validate(&first).is_ok());
    let second = parse(lex("deploy api to prod")).unwrap();
    let errors = validator.validate(&second).unwrap_err();
    assert_eq!(errors.len(), 1);
    assert!(errors[0].message.starts_with("E001: "));
}

#[test]
fn domains_stay_recorded_across_programs() {
    let mut validator = SemanticValidator::new();
    let first = parse(lex("domain api { }")).unwrap();
    assert!(validator.validate(&first).is_ok());
    let second = parse(lex("environment prod { } deploy api to prod")).unwrap();
    assert!(validator.validate(&second).is_ok());
}

#[test]
fn undefined_reference_in_goal() {
    assert_eq!(
        messages("domain D { state { x: int } goal g { target y == 1 } }"),
        vec!["Domain 'D': Reference to undefined state variable 'y'".to_string()]
    );
}

#[test]
fn assignment_in_goal_is_a_mutation_and_checked_for_its_target() {
    assert_eq!(
        messages("domain D { goal g { target y = 1 } }"),
        vec![
            "Domain 'D': Illegal mutation of 'y'. Goals must be strictly read-only and side-effect free."
                .to_string(),
            "Domain 'D': Cannot assign to undefined state variable 'y'".to_string(),
        ]
    );
}

#[test]
fn unbounded_loop_is_forbidden() {
    assert_eq!(
        messages("domain D { state { x: int } transition t { step { while true { x = 1 } } } }"),
        vec![
            "Domain 'D': Unbounded `while(true)` loops are forbidden to preserve slice computation bounds."
                .to_string()
        ]
    );
}

#[test]
fn bounded_loop_is_allowed() {
    assert!(validate("domain D { state { x: int } transition t { step { while x < 3 { x = x + 1 } } } }").is_ok());
}

#[test]
fn shell_call_is_forbidden() {
    assert_eq!(
        messages("domain D { transition t { step { shell(1) } } }"),
        vec![
            "E001: Execution authority violation\nManual context mutation detected: `shell(...)` is forbidden.\n\nRequired: environment-bound capability\nFound: local session context\n\nResolution:\nBind operation to declared environment block."
                .to_string()
        ]
    );
}

#[test]
fn effects_in_goals_are_reported_twice() {
    let errors = validate("domain D { goal g { target send(a, b) } }").unwrap_err();
    let texts: Vec<String> = errors.iter().map(|e| e.message.clone()).collect();
    assert_eq!(
        texts,
        vec![
            "Domain 'D': Illegal effect 'send'. Goals must be strictly side-effect free.".to_string(),
            "A008: Effect Emission in Pure Context\nGoal 'g' in domain 'D' illegally emits 'send' effect.\nGoals must be strictly pure and side-effect free.\n\nResolution:\nMove side effects to a transition"
                .to_string(),
        ]
    );
    assert_eq!(errors[1].span.offset, 27);
    assert_eq!(errors[1].span.len, 10);
}

#[test]
fn send_high_in_goal_is_named_in_the_error() {
    let texts = messages("domain D { goal g { target send_high(a, b) } }");
    assert_eq!(texts.len(), 2);
    assert_eq!(texts[0], "Domain 'D': Illegal effect 'send_high'. Goals must be strictly side-effect free.");
    assert!(texts[1].contains("illegally emits 'send_high' effect."));
}

#[test]
fn transition_capability_escalation() {
    assert_eq!(
        messages("domain D { capability { storage } transition t { capability { net, storage } step { } } }"),
        vec![
            "A007: Capability Escalation Violation\nTransition 't' in domain 'D' requires capability 'net'\nwhich exceeds domain authority.\n\nDomain provides: [\"storage\"]\nTransition requires: [\"net\", \"storage\"]"
                .to_string()
        ]
    );
}

#[test]
fn goal_capability_escalation() {
    assert_eq!(
        messages("domain D { goal g { capability { admin } target 1 == 1 } }"),
        vec![
            "A007: Capability Escalation Violation\nGoal 'g' in domain 'D' requires capability 'admin'\nwhich exceeds domain authority.\n\nDomain provides: []\nGoal requires: [\"admin\"]"
                .to_string()
        ]
    );
}

#[test]
fn effect_without_messaging_capability() {
    let errors = validate("domain D { transition t { step { send(a, b) send_high(a, c) } } }").unwrap_err();
    assert_eq!(errors.len(), 2);
    assert_eq!(
        errors[0].message,
        "A008: Effect Emission Capability Missing\nTransition 't' in domain 'D' emits 'send' effect\nbut lacks 'messaging' capability.\n\nTransition capabilities: []\nRequired to emit effects: \"messaging\"\n\nResolution:\nAdd 'messaging' to transition capabilities"
    );
    assert!(errors[1].message.contains("emits 'send_high' effect"));
    assert_eq!(errors[0].span.offset, 33);
    assert_eq!(errors[1].span.offset, 44);
}

#[test]
fn effect_with_messaging_capability_passes() {
    assert!(validate(
        "domain D { capability { messaging } transition t { capability { messaging } step { send(a, b) } } }"
    )
    .is_ok());
}

#[test]
fn errors_come_in_pass_order() {
    let texts = messages(
        "deploy ghost to nowhere domain D { state { x: blob } goal g { target y == 1 } }",
    );
    assert_eq!(texts.len(), 4);
    assert!(texts[0].contains("Unknown type 'blob'"));
    assert!(texts[1].starts_with("E002: "));
    assert!(texts[2].starts_with("E001: "));
    assert!(texts[3].contains("undefined state variable 'y'"));
}

#[test]
fn invariants_must_be_pure() {
    let mut domain = empty_domain("D");
    domain.invariants.push(InvariantDecl {
        name: "inv".to_string(),
        predicate: assign("x", ident("x")),
        span: span(0, 3),
    });
    let ast = Ast { statements: vec![domain_stmt(domain)] };
    let errors = SemanticValidator::new().validate(&ast).unwrap_err();
    let texts: Vec<String> = errors.iter().map(|e| e.message.clone()).collect();
    assert_eq!(
        texts,
        vec![
            "Domain 'D': Illegal mutation of 'x'. Goals must be strictly read-only and side-effect free."
                .to_string(),
            "Domain 'D': Cannot assign to undefined state variable 'x'".to_string(),
            "Domain 'D': Reference to undefined state variable 'x'".to_string(),
        ]
    );
}

#[test]
fn transition_scoped_domain_may_not_declare_invariants() {
    let mut domain = empty_domain("D");
    domain.scope = Some(AuthorityScope::Transition);
    domain.invariants.push(InvariantDecl { name: "inv".to_string(), predicate: ident("x"), span: span(0, 1) });
    let ast = Ast { statements: vec![domain_stmt(domain)] };
    let errors = SemanticValidator::new().validate(&ast).unwrap_err();
    assert_eq!(errors.len(), 2);
    assert!(errors[0].message.contains("with scope 'transition'"));
}

#[test]
fn environment_with_capabilities_and_scope_is_declared() {
    let env = EnvironmentDecl {
        name: "prod".to_string(),
        configurations: Vec::new(),
        available_capabilities: vec!["net".to_string()],
        scope_level: Some(AuthorityScope::Root),
    };
    let ast = Ast {
        statements: vec![
            domain_stmt(empty_domain("api")),
            Statement { kind: StatementKind::EnvironmentDecl(env), span: span(0, 1) },
        ],
    };
    assert!(SemanticValidator::new().validate(&ast).is_ok());
}

#[test]
fn validating_again_reports_the_same_errors() {
    let ast = parse(lex("domain D { state { x: int } goal g { target x = 1 } } deploy D to prod")).unwrap();
    let mut validator = SemanticValidator::new();
    let first: Vec<String> = validator.validate(&ast).unwrap_err().into_iter().map(|e| e.message).collect();
    let second: Vec<String> = validator.validate(&ast).unwrap_err().into_iter().map(|e| e.message).collect();
    assert_eq!(first, second);
    assert_eq!(first.len(), 2);
}

#[test]
fn pure_context_only_adds_mutation_and_effect_errors() {
    let goal = messages("domain D { goal g { target y = send(a, b) } }");
    let transition = messages("domain D { capability { messaging } transition t { capability { messaging } step { y = send(a, b) } } }");
    assert_eq!(
        goal[..3].to_vec(),
        vec![
            "Domain 'D': Illegal mutation of 'y'. Goals must be strictly read-only and side-effect free."
                .to_string(),
            "Domain 'D': Cannot assign to undefined state variable 'y'".to_string(),
            "Domain 'D': Illegal effect 'send'. Goals must be strictly side-effect free.".to_string(),
        ]
    );
    assert_eq!(transition, vec!["Domain 'D': Cannot assign to undefined state variable 'y'".to_string()]);
}
