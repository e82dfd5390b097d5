//! Immutable abstract-syntax-tree nodes.
//!
//! Nodes are assembled bottom-up from already-parsed sub-expressions and
//! never mutated after construction.

use vstd::prelude::*;

verus! {

/// A unary operator.
#[derive(Clone, Copy, Debug, PartialEq, Eq, Structural)]
pub enum UnaryOp {
    Plus,
    Minus,
    LogicalNot,
    BitwiseNot,
    Increment,
    Decrement,
    TypeOf,
    Void,
    Delete,
    Await,
}

/// An expression node.
#[derive(Debug, PartialEq)]
pub enum Node {
    /// A `yield` expression.
    Yield(Yield),
    /// An identifier, as an interned symbol.
    Identifier(u32),
    BooleanLiteral(bool),
    NullLiteral,
    StringLiteral(u32),
    TemplateLiteral(u32),
    NumericLiteral(u64),
    RegExpLiteral(u32, u32),
    /// The `this` expression.
    This,
    /// A unary operator applied to an operand.
    UnaryExpr(UnaryOp, Box<Node>),
    /// The binary `in` operator.
    InExpr(Box<Node>, Box<Node>),
}

/// A `yield` expression: an optional operand and a delegation tag.
///
/// A delegating node (`yield*`) always carries an operand; see
/// [`node_valid`] and the constructor's precondition.
#[derive(Debug, PartialEq)]
pub struct Yield {
    pub expr: Option<Box<Node>>,
    pub delegate: bool,
}

impl Yield {
    /// Builds a `yield` node. Delegating nodes must carry an operand.
    pub fn new(expr: Option<Box<Node>>, delegate: bool) -> (y: Yield)
        requires
            delegate ==> expr is Some,
        ensures
            y == (Yield { expr, delegate }),
    {
        Yield { expr, delegate }
    }
}

/// Structural well-formedness of a node: a delegating `yield` always has an
/// operand, recursively at every depth.
pub open spec fn node_valid(n: Node) -> bool
    decreases n,
{
    match n {
        Node::Yield(y) => (y.delegate ==> y.expr is Some) && (y.expr matches Some(e)
            ==> node_valid(*e)),
        Node::UnaryExpr(_, e) => node_valid(*e),
        Node::InExpr(a, b) => node_valid(*a) && node_valid(*b),
        _ => true,
    }
}

} // verus!
