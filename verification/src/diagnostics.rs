//! The closed set of parse failures.
//!
//! Failures are ordinary result values, never signals: a production either
//! returns a fully formed node or one of these, and a child production's
//! failure is passed through unchanged.

use crate::token::TokenKind;
use vstd::prelude::*;

verus! {

/// Name of the production that raised a diagnostic, for rendering.
#[derive(Clone, Copy, Debug, PartialEq, Eq, Structural)]
pub enum Production {
    YieldExpression,
    AssignmentExpression,
    RelationalExpression,
    UnaryExpression,
    PrimaryExpression,
}

impl Production {
    /// Human-readable production name for diagnostic rendering.
    pub fn description(&self) -> &'static str {
        match self {
            Production::YieldExpression => "yield expression",
            Production::AssignmentExpression => "assignment expression",
            Production::RelationalExpression => "relational expression",
            Production::UnaryExpression => "unary expression",
            Production::PrimaryExpression => "primary expression",
        }
    }
}

/// A parse failure.
#[derive(Clone, Copy, Debug, PartialEq, Eq, Structural)]
pub enum ParseError {
    /// A grammar violation: the offending token's kind, and the production
    /// that required something else in its place.
    UnexpectedToken { found: TokenKind, production: Production },
    /// The token stream was exhausted where more input was required.
    AbruptEnd,
}

} // verus!
