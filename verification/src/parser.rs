//! The grammar production parsers.
//!
//! One parser object per production, each consuming tokens through the
//! cursor and producing a node or a failure. Productions compose by direct
//! invocation with an explicitly passed context; every alternative is chosen
//! by bounded lookahead and, once a token of an alternative is consumed,
//! that alternative is committed — there is no backtracking.
//!
//! Each production's behaviour is pinned by a specification function of the
//! token sequence and start position alone: the pair of the produced result
//! and the number of tokens consumed. The executable parsers are proved to
//! return exactly that result and to advance the cursor by exactly that
//! count.

use crate::ast::{Node, UnaryOp, Yield};
use crate::context::{AllowAwait, AllowIn};
use crate::cursor::{spec_expect, Cursor};
use crate::diagnostics::{ParseError, Production};
use crate::token::{
    can_start_expression, starts_expression, Keyword, Punctuator, Token, TokenKind, AWAIT_WORD,
};
use vstd::prelude::*;

verus! {

/// The result of one production: a node or a failure.
pub type ParseResult = Result<Node, ParseError>;

/// The unary operator a token introduces, if any. `await` is a unary
/// operator only where the context makes it a keyword.
pub open spec fn unary_op_of(k: TokenKind, allow_await: bool) -> Option<UnaryOp> {
    match k {
        TokenKind::Punctuator(p) => match p {
            Punctuator::Add => Some(UnaryOp::Plus),
            Punctuator::Sub => Some(UnaryOp::Minus),
            Punctuator::Not => Some(UnaryOp::LogicalNot),
            Punctuator::Neg => Some(UnaryOp::BitwiseNot),
            Punctuator::Inc => Some(UnaryOp::Increment),
            Punctuator::Dec => Some(UnaryOp::Decrement),
            _ => None,
        },
        TokenKind::Keyword(kw) => match kw {
            Keyword::TypeOf => Some(UnaryOp::TypeOf),
            Keyword::Void => Some(UnaryOp::Void),
            Keyword::Delete => Some(UnaryOp::Delete),
            Keyword::Await => if allow_await {
                Some(UnaryOp::Await)
            } else {
                None
            },
            _ => None,
        },
        _ => None,
    }
}

/// Executable twin of [`unary_op_of`].
pub fn unary_operator_of(k: TokenKind, allow_await: bool) -> (r: Option<UnaryOp>)
    ensures
        r == unary_op_of(k, allow_await),
{
    match k {
        TokenKind::Punctuator(p) => match p {
            Punctuator::Add => Some(UnaryOp::Plus),
            Punctuator::Sub => Some(UnaryOp::Minus),
            Punctuator::Not => Some(UnaryOp::LogicalNot),
            Punctuator::Neg => Some(UnaryOp::BitwiseNot),
            Punctuator::Inc => Some(UnaryOp::Increment),
            Punctuator::Dec => Some(UnaryOp::Decrement),
            _ => None,
        },
        TokenKind::Keyword(kw) => match kw {
            Keyword::TypeOf => Some(UnaryOp::TypeOf),
            Keyword::Void => Some(UnaryOp::Void),
            Keyword::Delete => Some(UnaryOp::Delete),
            Keyword::Await => if allow_await {
                Some(UnaryOp::Await)
            } else {
                None
            },
            _ => None,
        },
        _ => None,
    }
}

/// What the `yield` production returns and how many tokens it consumes,
/// from position `pos` of `toks` under the given context.
///
/// After the mandatory `yield` keyword, a line terminator (or the end of the
/// stream) always ends the construct as a bare `yield`; a `*` commits to a
/// delegating yield whose operand is parsed with `in` forced permissive; a
/// token that can begin an expression commits to a value yield under the
/// unchanged context; and any other token is left unconsumed, the construct
/// ending as a bare `yield`.
pub open spec fn spec_parse_yield(
    toks: Seq<Token>,
    pos: int,
    allow_in: bool,
    allow_await: bool,
) -> (Result<Node, ParseError>, nat)
    recommends
        0 <= pos <= toks.len(),
    decreases toks.len() - pos, 0int,
{
    if pos >= toks.len() {
        (Err(ParseError::AbruptEnd), 0)
    } else if toks[pos].kind != TokenKind::Keyword(Keyword::Yield) {
        (
            Err(
                ParseError::UnexpectedToken {
                    found: toks[pos].kind,
                    production: Production::YieldExpression,
                },
            ),
            0,
        )
    } else {
        let p1 = pos + 1;
        if p1 >= toks.len() || toks[p1].lt_before {
            (Ok(Node::Yield(Yield { expr: None, delegate: false })), 1)
        } else if toks[p1].kind == TokenKind::Punctuator(Punctuator::Mul) {
            let (r, c) = spec_parse_assignment(toks, p1 + 1, true, allow_await);
            match r {
                Ok(e) => (
                    Ok(Node::Yield(Yield { expr: Some(Box::new(e)), delegate: true })),
                    (2 + c) as nat,
                ),
                Err(e) => (Err(e), (2 + c) as nat),
            }
        } else if can_start_expression(toks[p1].kind) {
            let (r, c) = spec_parse_assignment(toks, p1, allow_in, allow_await);
            match r {
                Ok(e) => (
                    Ok(Node::Yield(Yield { expr: Some(Box::new(e)), delegate: false })),
                    (1 + c) as nat,
                ),
                Err(e) => (Err(e), (1 + c) as nat),
            }
        } else {
            (Ok(Node::Yield(Yield { expr: None, delegate: false })), 1)
        }
    }
}

/// What the assignment-level production returns and how many tokens it
/// consumes: a `yield`-introduced expression where the lookahead token is
/// the `yield` keyword, and a relational expression otherwise.
pub open spec fn spec_parse_assignment(
    toks: Seq<Token>,
    pos: int,
    allow_in: bool,
    allow_await: bool,
) -> (Result<Node, ParseError>, nat)
    recommends
        0 <= pos <= toks.len(),
    decreases toks.len() - pos, 3int,
{
    if pos >= toks.len() {
        (Err(ParseError::AbruptEnd), 0)
    } else if toks[pos].kind == TokenKind::Keyword(Keyword::Yield) {
        spec_parse_yield(toks, pos, allow_in, allow_await)
    } else {
        spec_parse_relational(toks, pos, allow_in, allow_await)
    }
}

/// What the relational production returns and how many tokens it consumes:
/// a unary expression, optionally followed — only where `in` is allowed —
/// by the binary `in` operator and a second unary expression.
pub open spec fn spec_parse_relational(
    toks: Seq<Token>,
    pos: int,
    allow_in: bool,
    allow_await: bool,
) -> (Result<Node, ParseError>, nat)
    recommends
        0 <= pos <= toks.len(),
    decreases toks.len() - pos, 2int,
{
    let (r1, c1) = spec_parse_unary(toks, pos, allow_await);
    match r1 {
        Err(e) => (Err(e), c1),
        Ok(lhs) => {
            let p1 = pos + c1;
            if allow_in && p1 < toks.len() && toks[p1].kind == TokenKind::Keyword(Keyword::In) {
                let (r2, c2) = spec_parse_unary(toks, p1 + 1, allow_await);
                match r2 {
                    Err(e) => (Err(e), (c1 + 1 + c2) as nat),
                    Ok(rhs) => (
                        Ok(Node::InExpr(Box::new(lhs), Box::new(rhs))),
                        (c1 + 1 + c2) as nat,
                    ),
                }
            } else {
                (Ok(lhs), c1)
            }
        },
    }
}

/// What the unary production returns and how many tokens it consumes: a
/// chain of unary operators applied to a primary expression.
pub open spec fn spec_parse_unary(toks: Seq<Token>, pos: int, allow_await: bool) -> (Result<
    Node,
    ParseError,
>, nat)
    recommends
        0 <= pos <= toks.len(),
    decreases toks.len() - pos, 1int,
{
    if pos >= toks.len() {
        (Err(ParseError::AbruptEnd), 0)
    } else {
        match unary_op_of(toks[pos].kind, allow_await) {
            Some(op) => {
                let (r, c) = spec_parse_unary(toks, pos + 1, allow_await);
                match r {
                    Ok(e) => (Ok(Node::UnaryExpr(op, Box::new(e))), (1 + c) as nat),
                    Err(e) => (Err(e), (1 + c) as nat),
                }
            },
            None => spec_parse_primary(toks, pos, allow_await),
        }
    }
}

/// What the primary production returns and how many tokens it consumes: an
/// identifier, a literal, `this`, `await` as an ordinary identifier where
/// the context does not make it a keyword, or a parenthesized assignment
/// expression parsed with `in` allowed.
pub open spec fn spec_parse_primary(toks: Seq<Token>, pos: int, allow_await: bool) -> (Result<
    Node,
    ParseError,
>, nat)
    recommends
        0 <= pos <= toks.len(),
    decreases toks.len() - pos, 0int,
{
    if pos >= toks.len() {
        (Err(ParseError::AbruptEnd), 0)
    } else {
        match toks[pos].kind {
            TokenKind::Identifier(s) => (Ok(Node::Identifier(s)), 1),
            TokenKind::BooleanLiteral(b) => (Ok(Node::BooleanLiteral(b)), 1),
            TokenKind::NullLiteral => (Ok(Node::NullLiteral), 1),
            TokenKind::StringLiteral(s) => (Ok(Node::StringLiteral(s)), 1),
            TokenKind::TemplateNoSubstitution(s) => (Ok(Node::TemplateLiteral(s)), 1),
            TokenKind::NumericLiteral(n) => (Ok(Node::NumericLiteral(n)), 1),
            TokenKind::RegularExpressionLiteral(a, b) => (Ok(Node::RegExpLiteral(a, b)), 1),
            TokenKind::Keyword(Keyword::This) => (Ok(Node::This), 1),
            TokenKind::Keyword(Keyword::Await) => if !allow_await {
                (Ok(Node::Identifier(AWAIT_WORD)), 1)
            } else {
                (
                    Err(
                        ParseError::UnexpectedToken {
                            found: toks[pos].kind,
                            production: Production::PrimaryExpression,
                        },
                    ),
                    0,
                )
            },
            TokenKind::Punctuator(Punctuator::OpenParen) => {
                let (r, c) = spec_parse_assignment(toks, pos + 1, true, allow_await);
                match r {
                    Err(e) => (Err(e), (1 + c) as nat),
                    Ok(e) => {
                        let (r2, c2) = spec_expect(
                            toks,
                            pos + 1 + c,
                            TokenKind::Punctuator(Punctuator::CloseParen),
                            Production::PrimaryExpression,
                        );
                        match r2 {
                            Ok(_) => (Ok(e), (1 + c + c2) as nat),
                            Err(e2) => (Err(e2), (1 + c) as nat),
                        }
                    },
                }
            },
            k => (
                Err(
                    ParseError::UnexpectedToken {
                        found: k,
                        production: Production::PrimaryExpression,
                    },
                ),
                0,
            ),
        }
    }
}

/// The `yield`-introduced expression production.
#[derive(Clone, Copy, Debug, PartialEq, Eq, Structural)]
pub struct YieldExpression {
    pub allow_in: AllowIn,
    pub allow_await: AllowAwait,
}

impl YieldExpression {
    /// A `yield` production parser under the given context.
    pub fn new(allow_in: AllowIn, allow_await: AllowAwait) -> (p: YieldExpression)
        ensures
            p == (YieldExpression { allow_in, allow_await }),
    {
        YieldExpression { allow_in, allow_await }
    }

    /// Consumes a `yield` expression from the cursor.
    pub fn parse(self, cursor: &mut Cursor) -> (r: ParseResult)
        requires
            old(cursor).wf(),
        ensures
            final(cursor).wf(),
            final(cursor).toks() == old(cursor).toks(),
            r == spec_parse_yield(
                old(cursor).toks(),
                old(cursor).position(),
                self.allow_in.0,
                self.allow_await.0,
            ).0,
            final(cursor).position() == old(cursor).position() + spec_parse_yield(
                old(cursor).toks(),
                old(cursor).position(),
                self.allow_in.0,
                self.allow_await.0,
            ).1,
        decreases old(cursor).toks().len() - old(cursor).position(), 0int,
    {
        let keyword = cursor.expect(
            TokenKind::Keyword(Keyword::Yield),
            Production::YieldExpression,
        );
        match keyword {
            Err(e) => {
                return Err(e);
            },
            Ok(_) => {},
        }
        match cursor.peek_is_line_terminator(0) {
            None => {
                return Ok(Node::Yield(Yield::new(None, false)));
            },
            Some(true) => {
                return Ok(Node::Yield(Yield::new(None, false)));
            },
            Some(false) => {},
        }
        let token = cursor.peek(0).unwrap();
        match token.kind {
            TokenKind::Punctuator(Punctuator::Mul) => {
                let _star = cursor.next();
                match AssignmentExpression::new(AllowIn(true), self.allow_await).parse(cursor) {
                    Ok(e) => Ok(Node::Yield(Yield::new(Some(Box::new(e)), true))),
                    Err(e) => Err(e),
                }
            },
            _ => {
                if starts_expression(token.kind) {
                    match AssignmentExpression::new(self.allow_in, self.allow_await).parse(
                        cursor,
                    ) {
                        Ok(e) => Ok(Node::Yield(Yield::new(Some(Box::new(e)), false))),
                        Err(e) => Err(e),
                    }
                } else {
                    Ok(Node::Yield(Yield::new(None, false)))
                }
            },
        }
    }
}

/// The assignment-level production.
#[derive(Clone, Copy, Debug, PartialEq, Eq, Structural)]
pub struct AssignmentExpression {
    pub allow_in: AllowIn,
    pub allow_await: AllowAwait,
}

impl AssignmentExpression {
    /// An assignment-level production parser under the given context.
    pub fn new(allow_in: AllowIn, allow_await: AllowAwait) -> (p: AssignmentExpression)
        ensures
            p == (AssignmentExpression { allow_in, allow_await }),
    {
        AssignmentExpression { allow_in, allow_await }
    }

    /// Consumes an assignment-level expression from the cursor.
    pub fn parse(self, cursor: &mut Cursor) -> (r: ParseResult)
        requires
            old(cursor).wf(),
        ensures
            final(cursor).wf(),
            final(cursor).toks() == old(cursor).toks(),
            r == spec_parse_assignment(
                old(cursor).toks(),
                old(cursor).position(),
                self.allow_in.0,
                self.allow_await.0,
            ).0,
            final(cursor).position() == old(cursor).position() + spec_parse_assignment(
                old(cursor).toks(),
                old(cursor).position(),
                self.allow_in.0,
                self.allow_await.0,
            ).1,
        decreases old(cursor).toks().len() - old(cursor).position(), 3int,
    {
        match cursor.peek(0) {
            None => Err(ParseError::AbruptEnd),
            Some(t) => match t.kind {
                TokenKind::Keyword(Keyword::Yield) => YieldExpression::new(
                    self.allow_in,
                    self.allow_await,
                ).parse(cursor),
                _ => RelationalExpression::new(self.allow_in, self.allow_await).parse(cursor),
            },
        }
    }
}

/// The relational production.
#[derive(Clone, Copy, Debug, PartialEq, Eq, Structural)]
pub struct RelationalExpression {
    pub allow_in: AllowIn,
    pub allow_await: AllowAwait,
}

impl RelationalExpression {
    /// A relational production parser under the given context.
    pub fn new(allow_in: AllowIn, allow_await: AllowAwait) -> (p: RelationalExpression)
        ensures
            p == (RelationalExpression { allow_in, allow_await }),
    {
        RelationalExpression { allow_in, allow_await }
    }

    /// Consumes a relational expression from the cursor.
    pub fn parse(self, cursor: &mut Cursor) -> (r: ParseResult)
        requires
            old(cursor).wf(),
        ensures
            final(cursor).wf(),
            final(cursor).toks() == old(cursor).toks(),
            r == spec_parse_relational(
                old(cursor).toks(),
                old(cursor).position(),
                self.allow_in.0,
                self.allow_await.0,
            ).0,
            final(cursor).position() == old(cursor).position() + spec_parse_relational(
                old(cursor).toks(),
                old(cursor).position(),
                self.allow_in.0,
                self.allow_await.0,
            ).1,
        decreases old(cursor).toks().len() - old(cursor).position(), 2int,
    {
        let lhs = match UnaryExpression::new(self.allow_await).parse(cursor) {
            Ok(e) => e,
            Err(e) => {
                return Err(e);
            },
        };
        if self.allow_in.0 {
            let has_in = match cursor.peek(0) {
                Some(t) => t.kind == TokenKind::Keyword(Keyword::In),
                None => false,
            };
            if has_in {
                let _in_token = cursor.next();
                match UnaryExpression::new(self.allow_await).parse(cursor) {
                    Ok(rhs) => Ok(Node::InExpr(Box::new(lhs), Box::new(rhs))),
                    Err(e) => Err(e),
                }
            } else {
                Ok(lhs)
            }
        } else {
            Ok(lhs)
        }
    }
}

/// The unary production.
#[derive(Clone, Copy, Debug, PartialEq, Eq, Structural)]
pub struct UnaryExpression {
    pub allow_await: AllowAwait,
}

impl UnaryExpression {
    /// A unary production parser under the given context.
    pub fn new(allow_await: AllowAwait) -> (p: UnaryExpression)
        ensures
            p == (UnaryExpression { allow_await }),
    {
        UnaryExpression { allow_await }
    }

    /// Consumes a unary expression from the cursor.
    pub fn parse(self, cursor: &mut Cursor) -> (r: ParseResult)
        requires
            old(cursor).wf(),
        ensures
            final(cursor).wf(),
            final(cursor).toks() == old(cursor).toks(),
            r == spec_parse_unary(
                old(cursor).toks(),
                old(cursor).position(),
                self.allow_await.0,
            ).0,
            final(cursor).position() == old(cursor).position() + spec_parse_unary(
                old(cursor).toks(),
                old(cursor).position(),
                self.allow_await.0,
            ).1,
        decreases old(cursor).toks().len() - old(cursor).position(), 1int,
    {
        match cursor.peek(0) {
            None => Err(ParseError::AbruptEnd),
            Some(t) => match unary_operator_of(t.kind, self.allow_await.0) {
                Some(op) => {
                    let _op_token = cursor.next();
                    match UnaryExpression::new(self.allow_await).parse(cursor) {
                        Ok(e) => Ok(Node::UnaryExpr(op, Box::new(e))),
                        Err(e) => Err(e),
                    }
                },
                None => PrimaryExpression::new(self.allow_await).parse(cursor),
            },
        }
    }
}

/// The primary production.
#[derive(Clone, Copy, Debug, PartialEq, Eq, Structural)]
pub struct PrimaryExpression {
    pub allow_await: AllowAwait,
}

impl PrimaryExpression {
    /// A primary production parser under the given context.
    pub fn new(allow_await: AllowAwait) -> (p: PrimaryExpression)
        ensures
            p == (PrimaryExpression { allow_await }),
    {
        PrimaryExpression { allow_await }
    }

    /// Consumes a primary expression from the cursor.
    pub fn parse(self, cursor: &mut Cursor) -> (r: ParseResult)
        requires
            old(cursor).wf(),
        ensures
            final(cursor).wf(),
            final(cursor).toks() == old(cursor).toks(),
            r == spec_parse_primary(
                old(cursor).toks(),
                old(cursor).position(),
                self.allow_await.0,
            ).0,
            final(cursor).position() == old(cursor).position() + spec_parse_primary(
                old(cursor).toks(),
                old(cursor).position(),
                self.allow_await.0,
            ).1,
        decreases old(cursor).toks().len() - old(cursor).position(), 0int,
    {
        match cursor.peek(0) {
            None => Err(ParseError::AbruptEnd),
            Some(t) => match t.kind {
                TokenKind::Identifier(s) => {
                    let _tok = cursor.next();
                    Ok(Node::Identifier(s))
                },
                TokenKind::BooleanLiteral(b) => {
                    let _tok = cursor.next();
                    Ok(Node::BooleanLiteral(b))
                },
                TokenKind::NullLiteral => {
                    let _tok = cursor.next();
                    Ok(Node::NullLiteral)
                },
                TokenKind::StringLiteral(s) => {
                    let _tok = cursor.next();
                    Ok(Node::StringLiteral(s))
                },
                TokenKind::TemplateNoSubstitution(s) => {
                    let _tok = cursor.next();
                    Ok(Node::TemplateLiteral(s))
                },
                TokenKind::NumericLiteral(n) => {
                    let _tok = cursor.next();
                    Ok(Node::NumericLiteral(n))
                },
                TokenKind::RegularExpressionLiteral(a, b) => {
                    let _tok = cursor.next();
                    Ok(Node::RegExpLiteral(a, b))
                },
                TokenKind::Keyword(Keyword::This) => {
                    let _tok = cursor.next();
                    Ok(Node::This)
                },
                TokenKind::Keyword(Keyword::Await) => {
                    if !self.allow_await.0 {
                        let _tok = cursor.next();
                        Ok(Node::Identifier(AWAIT_WORD))
                    } else {
                        Err(
                            ParseError::UnexpectedToken {
                                found: t.kind,
                                production: Production::PrimaryExpression,
                            },
                        )
                    }
                },
                TokenKind::Punctuator(Punctuator::OpenParen) => {
                    let _tok = cursor.next();
                    let inner = match AssignmentExpression::new(AllowIn(true), self.allow_await)
                        .parse(cursor) {
                        Ok(e) => e,
                        Err(e) => {
                            return Err(e);
                        },
                    };
                    match cursor.expect(
                        TokenKind::Punctuator(Punctuator::CloseParen),
                        Production::PrimaryExpression,
                    ) {
                        Ok(_) => Ok(inner),
                        Err(e) => Err(e),
                    }
                },
                _ => Err(
                    ParseError::UnexpectedToken {
                        found: t.kind,
                        production: Production::PrimaryExpression,
                    },
                ),
            },
        }
    }
}

} // verus!
