//! The syntax tree that the parser builds and the validator checks, with its
//! mathematical model (the `Spec*` types) that contracts speak of.
pub mod tree;

use crate::lexer::Span;
use crate::text::{names_view, push_char};
use vstd::prelude::*;

verus! {

/// The level of authority a domain, goal, transition or environment works at.
#[derive(Clone, Copy, Debug, PartialEq, Eq, Structural)]
pub enum AuthorityScope {
    Root,
    Domain,
    Goal,
    Transition,
}

/// The scope that a scope name denotes: `root`, `domain`, `goal` or `transition`.
pub open spec fn scope_named(s: Seq<char>) -> Option<AuthorityScope> {
    if s == "root"@ {
        Some(AuthorityScope::Root)
    } else if s == "domain"@ {
        Some(AuthorityScope::Domain)
    } else if s == "goal"@ {
        Some(AuthorityScope::Goal)
    } else if s == "transition"@ {
        Some(AuthorityScope::Transition)
    } else {
        None
    }
}

/// The message for a scope name that names no scope.
pub open spec fn unknown_scope_message(s: Seq<char>) -> Seq<char> {
    "Unknown authority scope '"@ + s + "'"@
}

impl AuthorityScope {
    /// Reads a scope name; any other name is refused with a message that quotes it.
    pub fn from_str(s: &str) -> (r: Result<AuthorityScope, String>)
        ensures
            scope_named(s@) matches Some(a) ==> r == Ok::<AuthorityScope, String>(a),
            scope_named(s@) is None ==> (r matches Err(m) && m@ == unknown_scope_message(s@)),
    {
        if crate::text::str_eq(s, "root") {
            Ok(AuthorityScope::Root)
        } else if crate::text::str_eq(s, "domain") {
            Ok(AuthorityScope::Domain)
        } else if crate::text::str_eq(s, "goal") {
            Ok(AuthorityScope::Goal)
        } else if crate::text::str_eq(s, "transition") {
            Ok(AuthorityScope::Transition)
        } else {
            let mut m = String::from_str("Unknown authority scope '");
            m.append(s);
            push_char(&mut m, '\'');
            proof {
                reveal_strlit("'");
            }
            assert(m@ =~= unknown_scope_message(s@));
            Err(m)
        }
    }
}

/// A top-level statement with its source span.
#[derive(Debug)]
pub struct Statement {
    pub kind: StatementKind,
    pub span: Span,
}

#[derive(Debug)]
pub enum StatementKind {
    DomainDecl(DomainDecl),
    SystemDecl(SystemDecl),
    EnvironmentDecl(EnvironmentDecl),
    DeployStmt(DeployStmt),
}

#[derive(Debug, Clone)]
pub struct DeployStmt {
    pub service: String,
    pub target_environment: String,
}

#[derive(Debug)]
pub struct EnvironmentDecl {
    pub name: String,
    pub configurations: Vec<(String, Expr)>,
    pub available_capabilities: Vec<String>,
    pub scope_level: Option<AuthorityScope>,
}

#[derive(Debug)]
pub struct DomainDecl {
    pub name: String,
    pub scope: Option<AuthorityScope>,
    pub required_capabilities: Vec<String>,
    pub state: Vec<StateField>,
    pub goals: Vec<GoalDecl>,
    pub transitions: Vec<TransitionDecl>,
    pub invariants: Vec<InvariantDecl>,
}

#[derive(Debug, Clone)]
pub struct StateField {
    pub name: String,
    pub typ: String,
    pub span: Span,
}

#[derive(Debug)]
pub struct GoalDecl {
    pub name: String,
    pub scope: Option<AuthorityScope>,
    pub required_capabilities: Vec<String>,
    pub target: Expr,
    pub strategy: Vec<String>,
    pub priority: u8,
    pub span: Span,
}

#[derive(Debug)]
pub struct TransitionDecl {
    pub name: String,
    pub scope: Option<AuthorityScope>,
    pub required_capabilities: Vec<String>,
    pub slice_step: Vec<Expr>,
    pub span: Span,
}

#[derive(Debug)]
pub struct InvariantDecl {
    pub name: String,
    pub predicate: Expr,
    pub span: Span,
}

#[derive(Debug)]
pub struct SystemDecl {
    pub name: String,
    pub start_domains: Vec<StartDomain>,
}

#[derive(Debug)]
pub struct StartDomain {
    pub name: String,
    pub init_state: Vec<Expr>,
}

#[derive(Debug)]
pub struct Expr {
    pub kind: ExprKind,
    pub span: Span,
}

#[derive(Debug)]
pub enum ExprKind {
    BinaryOp { left: Box<Expr>, op: String, right: Box<Expr> },
    Assignment { target: String, value: Box<Expr> },
    Ident(String),
    IntLiteral(i64),
    StringLiteral(String),
    BoolLiteral(bool),
    Call { function: String, arguments: Vec<Expr> },
    Send { target: String, message: String },
    SendHigh { target: String, message: String },
    If { condition: Box<Expr>, consequence: Vec<Expr> },
    While { condition: Box<Expr>, body: Vec<Expr> },
}

#[derive(Debug)]
pub struct Ast {
    pub statements: Vec<Statement>,
}

// The mathematical model of the syntax tree: the same shapes, strings as
// character sequences and lists as sequences.

pub struct SpecExpr {
    pub kind: SpecExprKind,
    pub span: Span,
}

pub enum SpecExprKind {
    BinaryOp { left: Box<SpecExpr>, op: Seq<char>, right: Box<SpecExpr> },
    Assignment { target: Seq<char>, value: Box<SpecExpr> },
    Ident(Seq<char>),
    IntLiteral(i64),
    StringLiteral(Seq<char>),
    BoolLiteral(bool),
    Call { function: Seq<char>, arguments: Seq<SpecExpr> },
    Send { target: Seq<char>, message: Seq<char> },
    SendHigh { target: Seq<char>, message: Seq<char> },
    If { condition: Box<SpecExpr>, consequence: Seq<SpecExpr> },
    While { condition: Box<SpecExpr>, body: Seq<SpecExpr> },
}

pub struct SpecStateField {
    pub name: Seq<char>,
    pub typ: Seq<char>,
    pub span: Span,
}

pub struct SpecGoalDecl {
    pub name: Seq<char>,
    pub scope: Option<AuthorityScope>,
    pub required_capabilities: Seq<Seq<char>>,
    pub target: SpecExpr,
    pub strategy: Seq<Seq<char>>,
    pub priority: u8,
    pub span: Span,
}

pub struct SpecTransitionDecl {
    pub name: Seq<char>,
    pub scope: Option<AuthorityScope>,
    pub required_capabilities: Seq<Seq<char>>,
    pub slice_step: Seq<SpecExpr>,
    pub span: Span,
}

pub struct SpecInvariantDecl {
    pub name: Seq<char>,
    pub predicate: SpecExpr,
    pub span: Span,
}

pub struct SpecDomainDecl {
    pub name: Seq<char>,
    pub scope: Option<AuthorityScope>,
    pub required_capabilities: Seq<Seq<char>>,
    pub state: Seq<SpecStateField>,
    pub goals: Seq<SpecGoalDecl>,
    pub transitions: Seq<SpecTransitionDecl>,
    pub invariants: Seq<SpecInvariantDecl>,
}

pub struct SpecEnvironmentDecl {
    pub name: Seq<char>,
    pub configurations: Seq<(Seq<char>, SpecExpr)>,
    pub available_capabilities: Seq<Seq<char>>,
    pub scope_level: Option<AuthorityScope>,
}

pub struct SpecDeployStmt {
    pub service: Seq<char>,
    pub target_environment: Seq<char>,
}

pub struct SpecStartDomain {
    pub name: Seq<char>,
    pub init_state: Seq<SpecExpr>,
}

pub struct SpecSystemDecl {
    pub name: Seq<char>,
    pub start_domains: Seq<SpecStartDomain>,
}

pub enum SpecStatementKind {
    DomainDecl(SpecDomainDecl),
    SystemDecl(SpecSystemDecl),
    EnvironmentDecl(SpecEnvironmentDecl),
    DeployStmt(SpecDeployStmt),
}

pub struct SpecStatement {
    pub kind: SpecStatementKind,
    pub span: Span,
}

pub struct SpecAst {
    pub statements: Seq<SpecStatement>,
}

impl View for Expr {
    type V = SpecExpr;

    open spec fn view(&self) -> SpecExpr
        decreases self,
    {
        SpecExpr {
            kind: match &self.kind {
                ExprKind::BinaryOp { left, op, right } => SpecExprKind::BinaryOp {
                    left: Box::new((**left).view()),
                    op: op@,
                    right: Box::new((**right).view()),
                },
                ExprKind::Assignment { target, value } => SpecExprKind::Assignment {
                    target: target@,
                    value: Box::new((**value).view()),
                },
                ExprKind::Ident(s) => SpecExprKind::Ident(s@),
                ExprKind::IntLiteral(n) => SpecExprKind::IntLiteral(*n),
                ExprKind::StringLiteral(s) => SpecExprKind::StringLiteral(s@),
                ExprKind::BoolLiteral(b) => SpecExprKind::BoolLiteral(*b),
                ExprKind::Call { function, arguments } => SpecExprKind::Call {
                    function: function@,
                    arguments: exprs_view(arguments@),
                },
                ExprKind::Send { target, message } => SpecExprKind::Send {
                    target: target@,
                    message: message@,
                },
                ExprKind::SendHigh { target, message } => SpecExprKind::SendHigh {
                    target: target@,
                    message: message@,
                },
                ExprKind::If { condition, consequence } => SpecExprKind::If {
                    condition: Box::new((**condition).view()),
                    consequence: exprs_view(consequence@),
                },
                ExprKind::While { condition, body } => SpecExprKind::While {
                    condition: Box::new((**condition).view()),
                    body: exprs_view(body@),
                },
            },
            span: self.span,
        }
    }
}

/// The model of a list of expressions, each by its view.
pub open spec fn exprs_view(es: Seq<Expr>) -> Seq<SpecExpr>
    decreases es,
{
    if es.len() == 0 {
        Seq::empty()
    } else {
        exprs_view(es.drop_last()).push(es.last().view())
    }
}

/// The model of a list keeps its length and takes each element to its view.
pub proof fn lemma_exprs_view(es: Seq<Expr>)
    ensures
        exprs_view(es).len() == es.len(),
        forall|i: int| 0 <= i < es.len() ==> #[trigger] exprs_view(es)[i] == es[i]@,
    decreases es.len(),
{
    if es.len() > 0 {
        lemma_exprs_view(es.drop_last());
        assert(exprs_view(es) == exprs_view(es.drop_last()).push(es.last()@));
        assert forall|i: int| 0 <= i < es.len() implies #[trigger] exprs_view(es)[i] == es[i]@ by {
            if i < es.len() - 1 {
                assert(es.drop_last()[i] == es[i]);
            }
        }
    }
}

impl View for StateField {
    type V = SpecStateField;

    open spec fn view(&self) -> SpecStateField {
        SpecStateField { name: self.name@, typ: self.typ@, span: self.span }
    }
}

impl View for GoalDecl {
    type V = SpecGoalDecl;

    open spec fn view(&self) -> SpecGoalDecl {
        SpecGoalDecl {
            name: self.name@,
            scope: self.scope,
            required_capabilities: names_view(self.required_capabilities@),
            target: self.target@,
            strategy: names_view(self.strategy@),
            priority: self.priority,
            span: self.span,
        }
    }
}

impl View for TransitionDecl {
    type V = SpecTransitionDecl;

    open spec fn view(&self) -> SpecTransitionDecl {
        SpecTransitionDecl {
            name: self.name@,
            scope: self.scope,
            required_capabilities: names_view(self.required_capabilities@),
            slice_step: exprs_view(self.slice_step@),
            span: self.span,
        }
    }
}

impl View for InvariantDecl {
    type V = SpecInvariantDecl;

    open spec fn view(&self) -> SpecInvariantDecl {
        SpecInvariantDecl { name: self.name@, predicate: self.predicate@, span: self.span }
    }
}

impl View for DomainDecl {
    type V = SpecDomainDecl;

    open spec fn view(&self) -> SpecDomainDecl {
        SpecDomainDecl {
            name: self.name@,
            scope: self.scope,
            required_capabilities: names_view(self.required_capabilities@),
            state: self.state@.map_values(|f: StateField| f@),
            goals: self.goals@.map_values(|g: GoalDecl| g@),
            transitions: self.transitions@.map_values(|t: TransitionDecl| t@),
            invariants: self.invariants@.map_values(|i: InvariantDecl| i@),
        }
    }
}

impl View for EnvironmentDecl {
    type V = SpecEnvironmentDecl;

    open spec fn view(&self) -> SpecEnvironmentDecl {
        SpecEnvironmentDecl {
            name: self.name@,
            configurations: self.configurations@.map_values(|c: (String, Expr)| (c.0@, c.1@)),
            available_capabilities: names_view(self.available_capabilities@),
            scope_level: self.scope_level,
        }
    }
}

impl View for DeployStmt {
    type V = SpecDeployStmt;

    open spec fn view(&self) -> SpecDeployStmt {
        SpecDeployStmt { service: self.service@, target_environment: self.target_environment@ }
    }
}

impl View for StartDomain {
    type V = SpecStartDomain;

    open spec fn view(&self) -> SpecStartDomain {
        SpecStartDomain { name: self.name@, init_state: exprs_view(self.init_state@) }
    }
}

impl View for SystemDecl {
    type V = SpecSystemDecl;

    open spec fn view(&self) -> SpecSystemDecl {
        SpecSystemDecl {
            name: self.name@,
            start_domains: self.start_domains@.map_values(|d: StartDomain| d@),
        }
    }
}

impl View for Statement {
    type V = SpecStatement;

    open spec fn view(&self) -> SpecStatement {
        SpecStatement {
            kind: match &self.kind {
                StatementKind::DomainDecl(d) => SpecStatementKind::DomainDecl(d@),
                StatementKind::SystemDecl(s) => SpecStatementKind::SystemDecl(s@),
                StatementKind::EnvironmentDecl(e) => SpecStatementKind::EnvironmentDecl(e@),
                StatementKind::DeployStmt(d) => SpecStatementKind::DeployStmt(d@),
            },
            span: self.span,
        }
    }
}

impl View for Ast {
    type V = SpecAst;

    open spec fn view(&self) -> SpecAst {
        SpecAst { statements: self.statements@.map_values(|s: Statement| s@) }
    }
}

} // verus!
