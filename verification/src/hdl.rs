//! A self-contained domain model of hardware-description constructs:
//! modules, ports, nets, statements and expressions. It shares no code
//! path with the graph extraction pipeline.

use vstd::prelude::*;

verus! {

/// The supported net kinds.
#[derive(Clone, Debug, PartialEq, Eq)]
pub enum NetType {
    Wire,
}

/// One statement of a module body.
#[derive(Debug, PartialEq, Eq)]
pub enum Statement {
    Wire(Wire),
    Register(Register),
    Assign(Assign),
    Always(Always),
    LocalParam(LocalParam),
    If(If),
    Case(Case),
    Assignment(Assignment),
}

/// A continuous assignment to a named net.
#[derive(Debug, PartialEq, Eq)]
pub struct Assign {
    pub left: String,
    pub right: Expression,
}

/// A block of statements run on its sensitivity condition.
#[derive(Debug, PartialEq, Eq)]
pub struct Always {
    pub statements: Vec<Statement>,
}

/// An expression tree over identifiers and literals.
#[derive(Debug, PartialEq, Eq)]
pub enum Expression {
    Identifier(String),
    Unary(UnaryOp, Box<Expression>),
    Binary(Box<Expression>, BinaryOp, Box<Expression>),
    Number(Number),
}

/// The unary operations.
#[derive(Clone, Debug, PartialEq, Eq)]
pub enum UnaryOp {
    Not,
}

/// The binary operations.
#[derive(Clone, Debug, PartialEq, Eq)]
pub enum BinaryOp {
    And,
    Or,
    Eq,
}

/// A port of a module.
#[derive(Clone, Debug, PartialEq, Eq)]
pub enum Port {
    Input(Input),
    Output(Output),
    Inout(Inout),
}

/// A conditional statement with both branches.
#[derive(Debug, PartialEq, Eq)]
pub struct If {
    pub condition: Expression,
    pub then_statements: Vec<Statement>,
    pub else_statements: Vec<Statement>,
}

/// A case statement: one scrutinee and one statement per labeled arm; an
/// unlabeled arm is the default.
#[derive(Debug, PartialEq, Eq)]
pub struct Case {
    pub expression: Expression,
    pub items: Vec<(Option<String>, Statement)>,
}

/// An input port declaration.
#[derive(Clone, Debug, PartialEq, Eq)]
pub struct Input {
    pub name: String,
    pub net_type: Option<NetType>,
    pub width: Option<u32>,
    pub is_signed: bool,
}

/// A bidirectional port declaration.
#[derive(Clone, Debug, PartialEq, Eq)]
pub struct Inout {
    pub name: String,
    pub net_type: Option<NetType>,
    pub width: Option<u32>,
    pub is_signed: bool,
}

/// What an output port carries: a net, or a register.
#[derive(Clone, Debug, PartialEq, Eq)]
pub enum RegNetType {
    NetType(NetType),
    Reg(bool),
}

/// An output port declaration.
#[derive(Clone, Debug, PartialEq, Eq)]
pub struct Output {
    pub name: String,
    pub reg_net_type: Option<RegNetType>,
    pub width: Option<u32>,
    pub is_signed: bool,
}

/// How an assignment takes effect.
#[derive(Clone, Debug, PartialEq, Eq)]
pub enum OperationType {
    Sync,
    Async,
}

/// A procedural assignment to a named target.
#[derive(Debug, PartialEq, Eq)]
pub struct Assignment {
    pub name: String,
    pub ass_type: OperationType,
    pub right: Expression,
}

/// A module: its name, body and ports.
#[derive(Debug, PartialEq, Eq)]
pub struct Module {
    pub name: String,
    pub statements: Vec<Statement>,
    pub ports: Vec<Port>,
}

/// A wire declaration.
#[derive(Clone, Debug, PartialEq, Eq)]
pub struct Wire {
    pub name: String,
    pub width: u32,
}

/// A register declaration.
#[derive(Clone, Debug, PartialEq, Eq)]
pub struct Register {
    pub name: String,
    pub width: u32,
}

/// A local parameter with its constant value.
#[derive(Clone, Debug, PartialEq, Eq)]
pub struct LocalParam {
    pub name: String,
    pub value: Number,
    pub width: u32,
    pub is_signed: bool,
}

/// A sized literal, by base; carries the width and the digit text.
#[derive(Clone, Debug, PartialEq, Eq)]
pub enum Number {
    Binary(u32, String),
    Octal(u32, String),
    Decimal(u32, String),
    Hex(u32, String),
}

} // verus!
