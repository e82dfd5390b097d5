//! Grammar context parameters.
//!
//! Each production parser carries an immutable snapshot of these flags, set
//! once by its caller. A production may force a different value for one of
//! its own sub-parses — most often pinning [`AllowIn`] to permissive for an
//! operand that is unambiguous — and that choice never leaks back to the
//! caller, because the values are copied, never shared.

use vstd::prelude::*;

verus! {

/// Whether the `in` keyword may be parsed as a binary operator at the
/// current nesting (false inside a `for (...)` head before its semicolons).
#[derive(Clone, Copy, Debug, PartialEq, Eq, Structural)]
pub struct AllowIn(pub bool);

/// Whether `await` is currently a unary-operator keyword rather than an
/// ordinary identifier (true inside async function bodies; propagated by
/// each production, never recomputed).
#[derive(Clone, Copy, Debug, PartialEq, Eq, Structural)]
pub struct AllowAwait(pub bool);

} // verus!
