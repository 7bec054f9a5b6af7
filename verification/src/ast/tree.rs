//! An outline of a system: its domains with their state, transitions and
//! goals, in a simpler form than the parser's syntax tree. This is what the
//! outline parser builds and `semantics::analyze` walks.
use vstd::prelude::*;

verus! {

#[derive(Debug)]
pub struct SystemNode {
    pub name: String,
    pub domains: Vec<DomainNode>,
}

#[derive(Debug)]
pub struct DomainNode {
    pub name: String,
    pub state: StateNode,
    pub transitions: Vec<TransitionNode>,
    pub goals: Vec<GoalNode>,
}

#[derive(Debug)]
pub struct StateNode {
    pub fields: Vec<StateField>,
}

#[derive(Debug)]
pub struct StateField {
    pub name: String,
    /// The type, as written.
    pub field_type: String,
    pub initial_value: Option<Expr>,
}

#[derive(Debug)]
pub struct TransitionNode {
    pub name: String,
    pub body: BlockNode,
}

#[derive(Debug)]
pub struct GoalNode {
    pub condition: Expr,
    pub fallback_transition: String,
}

#[derive(Debug)]
pub struct BlockNode {
    pub statements: Vec<Stmt>,
}

#[derive(Debug)]
pub enum Stmt {
    Assignment(String, Expr),
    EmitLog(String),
    /// A message to a transition of another domain: the domain, then the transition.
    SendMsg(String, String),
    /// A trigger of an internal transition.
    TriggerMsg(String),
}

#[derive(Debug)]
pub enum Expr {
    Int(i64),
    String(String),
    Bool(bool),
    Identifier(String),
    BinaryOp { op: BinaryOperator, left: Box<Expr>, right: Box<Expr> },
}

#[derive(Debug, Clone, Copy, PartialEq, Eq, Structural)]
pub enum BinaryOperator {
    Add,
    Sub,
    Eq,
}

} // verus!
