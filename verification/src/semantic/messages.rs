//! The texts of the validator's diagnostics, as spec functions over the names
//! they quote, and the functions that build them.
use vstd::prelude::*;

verus! {

pub open spec fn unknown_type_message(domain: Seq<char>, typ: Seq<char>, field: Seq<char>) -> Seq<char> {
    "Domain '"@ + domain + "': Unknown type '"@ + typ + "' for field '"@ + field + "'"@
}

pub open spec fn duplicate_field_message(domain: Seq<char>, field: Seq<char>) -> Seq<char> {
    "Domain '"@ + domain + "': Duplicate state field '"@ + field + "'"@
}

pub open spec fn transition_scope_message(domain: Seq<char>) -> Seq<char> {
    "Domain '"@ + domain + "' with scope 'transition' cannot declare state, goals, or invariants"@
}

pub open spec fn goal_scope_message(domain: Seq<char>) -> Seq<char> {
    "Domain '"@ + domain + "' with scope 'goal' cannot declare state or invariants"@
}

pub open spec fn unknown_service_message(service: Seq<char>) -> Seq<char> {
    "E002: Unknown service '"@ + service + "' in deployment statement."@
}

pub open spec fn undeclared_environment_message(env: Seq<char>) -> Seq<char> {
    "E001: Execution authority violation\nManual context mutation detected.\n\nRequired: environment-bound capability\nFound: undeclared environment '"@
        + env + "'\n\nResolution:\nBind operation to a declared environment block."@
}

pub open spec fn undefined_reference_message(domain: Seq<char>, name: Seq<char>) -> Seq<char> {
    "Domain '"@ + domain + "': Reference to undefined state variable '"@ + name + "'"@
}

pub open spec fn illegal_mutation_message(domain: Seq<char>, target: Seq<char>) -> Seq<char> {
    "Domain '"@ + domain + "': Illegal mutation of '"@ + target
        + "'. Goals must be strictly read-only and side-effect free."@
}

pub open spec fn undefined_assignment_message(domain: Seq<char>, target: Seq<char>) -> Seq<char> {
    "Domain '"@ + domain + "': Cannot assign to undefined state variable '"@ + target + "'"@
}

pub open spec fn unbounded_loop_message(domain: Seq<char>) -> Seq<char> {
    "Domain '"@ + domain
        + "': Unbounded `while(true)` loops are forbidden to preserve slice computation bounds."@
}

pub open spec fn illegal_effect_message(domain: Seq<char>, effect: Seq<char>) -> Seq<char> {
    "Domain '"@ + domain + "': Illegal effect '"@ + effect
        + "'. Goals must be strictly side-effect free."@
}

pub open spec fn shell_message() -> Seq<char> {
    "E001: Execution authority violation\nManual context mutation detected: `shell(...)` is forbidden.\n\nRequired: environment-bound capability\nFound: local session context\n\nResolution:\nBind operation to declared environment block."@
}

/// The capability lists are quoted as rendered text (see `debug_names`).
pub open spec fn transition_escalation_message(
    transition: Seq<char>,
    domain: Seq<char>,
    capability: Seq<char>,
    provided: Seq<char>,
    required: Seq<char>,
) -> Seq<char> {
    "A007: Capability Escalation Violation\nTransition '"@ + transition + "' in domain '"@ + domain
        + "' requires capability '"@ + capability
        + "'\nwhich exceeds domain authority.\n\nDomain provides: "@ + provided
        + "\nTransition requires: "@ + required
}

pub open spec fn transition_effect_message(
    transition: Seq<char>,
    domain: Seq<char>,
    effect: Seq<char>,
    capabilities: Seq<char>,
) -> Seq<char> {
    "A008: Effect Emission Capability Missing\nTransition '"@ + transition + "' in domain '"@ + domain
        + "' emits '"@ + effect
        + "' effect\nbut lacks 'messaging' capability.\n\nTransition capabilities: "@
        + capabilities
        + "\nRequired to emit effects: \"messaging\"\n\nResolution:\nAdd 'messaging' to transition capabilities"@
}

pub open spec fn goal_escalation_message(
    goal: Seq<char>,
    domain: Seq<char>,
    capability: Seq<char>,
    provided: Seq<char>,
    required: Seq<char>,
) -> Seq<char> {
    "A007: Capability Escalation Violation\nGoal '"@ + goal + "' in domain '"@ + domain
        + "' requires capability '"@ + capability
        + "'\nwhich exceeds domain authority.\n\nDomain provides: "@ + provided
        + "\nGoal requires: "@ + required
}

pub open spec fn goal_effect_message(goal: Seq<char>, domain: Seq<char>, effect: Seq<char>) -> Seq<char> {
    "A008: Effect Emission in Pure Context\nGoal '"@ + goal + "' in domain '"@ + domain
        + "' illegally emits '"@ + effect
        + "' effect.\nGoals must be strictly pure and side-effect free.\n\nResolution:\nMove side effects to a transition"@
}

/// `a`, then `b`, then `c`, as a new string.
fn join3(a: &str, b: &str, c: &str) -> (r: String)
    ensures
        r@ == a@ + b@ + c@,
{
    let mut m = String::from_str(a);
    m.append(b);
    m.append(c);
    m
}

/// `a` to `e` in turn, as a new string.
fn join5(a: &str, b: &str, c: &str, d: &str, e: &str) -> (r: String)
    ensures
        r@ == a@ + b@ + c@ + d@ + e@,
{
    let mut m = join3(a, b, c);
    m.append(d);
    m.append(e);
    m
}

pub fn unknown_type(domain: &str, typ: &str, field: &str) -> (r: String)
    ensures
        r@ == unknown_type_message(domain@, typ@, field@),
{
    let mut m = join5("Domain '", domain, "': Unknown type '", typ, "' for field '");
    m.append(field);
    m.append("'");
    m
}

pub fn duplicate_field(domain: &str, field: &str) -> (r: String)
    ensures
        r@ == duplicate_field_message(domain@, field@),
{
    join5("Domain '", domain, "': Duplicate state field '", field, "'")
}

pub fn transition_scope(domain: &str) -> (r: String)
    ensures
        r@ == transition_scope_message(domain@),
{
    join3("Domain '", domain, "' with scope 'transition' cannot declare state, goals, or invariants")
}

pub fn goal_scope(domain: &str) -> (r: String)
    ensures
        r@ == goal_scope_message(domain@),
{
    join3("Domain '", domain, "' with scope 'goal' cannot declare state or invariants")
}

pub fn unknown_service(service: &str) -> (r: String)
    ensures
        r@ == unknown_service_message(service@),
{
    join3("E002: Unknown service '", service, "' in deployment statement.")
}

pub fn undeclared_environment(env: &str) -> (r: String)
    ensures
        r@ == undeclared_environment_message(env@),
{
    join3(
        "E001: Execution authority violation\nManual context mutation detected.\n\nRequired: environment-bound capability\nFound: undeclared environment '",
        env,
        "'\n\nResolution:\nBind operation to a declared environment block.",
    )
}

pub fn undefined_reference(domain: &str, name: &str) -> (r: String)
    ensures
        r@ == undefined_reference_message(domain@, name@),
{
    join5("Domain '", domain, "': Reference to undefined state variable '", name, "'")
}

pub fn illegal_mutation(domain: &str, target: &str) -> (r: String)
    ensures
        r@ == illegal_mutation_message(domain@, target@),
{
    join5(
        "Domain '",
        domain,
        "': Illegal mutation of '",
        target,
        "'. Goals must be strictly read-only and side-effect free.",
    )
}

pub fn undefined_assignment(domain: &str, target: &str) -> (r: String)
    ensures
        r@ == undefined_assignment_message(domain@, target@),
{
    join5("Domain '", domain, "': Cannot assign to undefined state variable '", target, "'")
}

pub fn unbounded_loop(domain: &str) -> (r: String)
    ensures
        r@ == unbounded_loop_message(domain@),
{
    join3(
        "Domain '",
        domain,
        "': Unbounded `while(true)` loops are forbidden to preserve slice computation bounds.",
    )
}

pub fn illegal_effect(domain: &str, effect: &str) -> (r: String)
    ensures
        r@ == illegal_effect_message(domain@, effect@),
{
    join5("Domain '", domain, "': Illegal effect '", effect, "'. Goals must be strictly side-effect free.")
}

pub fn shell() -> (r: String)
    ensures
        r@ == shell_message(),
{
    String::from_str(
        "E001: Execution authority violation\nManual context mutation detected: `shell(...)` is forbidden.\n\nRequired: environment-bound capability\nFound: local session context\n\nResolution:\nBind operation to declared environment block.",
    )
}

pub fn transition_escalation(
    transition: &str,
    domain: &str,
    capability: &str,
    provided: &str,
    required: &str,
) -> (r: String)
    ensures
        r@ == transition_escalation_message(transition@, domain@, capability@, provided@, required@),
{
    let mut m = join5(
        "A007: Capability Escalation Violation\nTransition '",
        transition,
        "' in domain '",
        domain,
        "' requires capability '",
    );
    m.append(capability);
    m.append("'\nwhich exceeds domain authority.\n\nDomain provides: ");
    m.append(provided);
    m.append("\nTransition requires: ");
    m.append(required);
    m
}

pub fn transition_effect(transition: &str, domain: &str, effect: &str, capabilities: &str) -> (r: String)
    ensures
        r@ == transition_effect_message(transition@, domain@, effect@, capabilities@),
{
    let mut m = join5(
        "A008: Effect Emission Capability Missing\nTransition '",
        transition,
        "' in domain '",
        domain,
        "' emits '",
    );
    m.append(effect);
    m.append("' effect\nbut lacks 'messaging' capability.\n\nTransition capabilities: ");
    m.append(capabilities);
    m.append(
        "\nRequired to emit effects: \"messaging\"\n\nResolution:\nAdd 'messaging' to transition capabilities",
    );
    m
}

pub fn goal_escalation(goal: &str, domain: &str, capability: &str, provided: &str, required: &str) -> (r: String)
    ensures
        r@ == goal_escalation_message(goal@, domain@, capability@, provided@, required@),
{
    let mut m = join5(
        "A007: Capability Escalation Violation\nGoal '",
        goal,
        "' in domain '",
        domain,
        "' requires capability '",
    );
    m.append(capability);
    m.append("'\nwhich exceeds domain authority.\n\nDomain provides: ");
    m.append(provided);
    m.append("\nGoal requires: ");
    m.append(required);
    m
}

pub fn goal_effect(goal: &str, domain: &str, effect: &str) -> (r: String)
    ensures
        r@ == goal_effect_message(goal@, domain@, effect@),
{
    let mut m = join5(
        "A008: Effect Emission in Pure Context\nGoal '",
        goal,
        "' in domain '",
        domain,
        "' illegally emits '",
    );
    m.append(effect);
    m.append(
        "' effect.\nGoals must be strictly pure and side-effect free.\n\nResolution:\nMove side effects to a transition",
    );
    m
}

} // verus!
