//! Laws of the grammar, stated over the specification-level parse functions
//! and proved once for all inputs. Because every executable production is
//! proved equal to its specification function, each law carries over to the
//! executable parsers unchanged.

use crate::ast::{node_valid, Node, Yield};
use crate::diagnostics::{ParseError, Production};
use crate::parser::{
    spec_parse_assignment, spec_parse_primary, spec_parse_relational, spec_parse_unary,
    spec_parse_yield, unary_op_of,
};
use crate::token::{can_start_expression, Keyword, Punctuator, Token, TokenKind};
use vstd::prelude::*;

verus! {

/// A line terminator (or the end of the stream) directly after `yield`
/// always ends the construct: the result is a bare yield with no operand,
/// exactly one token is consumed, and whatever follows the line break is
/// left for the caller.
pub proof fn lemma_line_terminator_ends_yield(
    toks: Seq<Token>,
    pos: int,
    allow_in: bool,
    allow_await: bool,
)
    requires
        0 <= pos < toks.len(),
        toks[pos].kind == TokenKind::Keyword(Keyword::Yield),
        pos + 1 < toks.len() ==> toks[pos + 1].lt_before,
    ensures
        spec_parse_yield(toks, pos, allow_in, allow_await) == (
            Ok::<Node, ParseError>(Node::Yield(Yield { expr: None, delegate: false })),
            1nat,
        ),
{
}

/// `yield` followed (with no line terminator) by `*` commits to a
/// delegating yield: the operand is exactly one assignment-level parse
/// starting after the `*`, carried out with `in` forced permissive whatever
/// the enclosing context said, and an operand failure propagates unchanged.
pub proof fn lemma_delegating_yield_forces_in_permissive(
    toks: Seq<Token>,
    pos: int,
    allow_in: bool,
    allow_await: bool,
)
    requires
        0 <= pos,
        pos + 1 < toks.len(),
        toks[pos].kind == TokenKind::Keyword(Keyword::Yield),
        !toks[pos + 1].lt_before,
        toks[pos + 1].kind == TokenKind::Punctuator(Punctuator::Mul),
    ensures
        ({
            let (r, c) = spec_parse_assignment(toks, pos + 2, true, allow_await);
            spec_parse_yield(toks, pos, allow_in, allow_await) == (
                match r {
                    Ok(e) => Ok::<Node, ParseError>(
                        Node::Yield(Yield { expr: Some(Box::new(e)), delegate: true }),
                    ),
                    Err(e) => Err::<Node, ParseError>(e),
                },
                (2 + c) as nat,
            )
        }),
{
}

/// `yield *` with nothing following fails with an abrupt end of input: it
/// never silently becomes a delegating node without an operand.
pub proof fn lemma_missing_delegate_operand_is_abrupt_end(
    toks: Seq<Token>,
    pos: int,
    allow_in: bool,
    allow_await: bool,
)
    requires
        0 <= pos,
        pos + 2 == toks.len(),
        toks[pos].kind == TokenKind::Keyword(Keyword::Yield),
        !toks[pos + 1].lt_before,
        toks[pos + 1].kind == TokenKind::Punctuator(Punctuator::Mul),
    ensures
        spec_parse_yield(toks, pos, allow_in, allow_await) == (
            Err::<Node, ParseError>(ParseError::AbruptEnd),
            2nat,
        ),
{
}

/// `yield *` followed by a token that cannot begin an expression fails with
/// an unexpected-token diagnostic naming that token.
pub proof fn lemma_bad_delegate_operand_is_unexpected_token(
    toks: Seq<Token>,
    pos: int,
    allow_in: bool,
    allow_await: bool,
)
    requires
        0 <= pos,
        pos + 2 < toks.len(),
        toks[pos].kind == TokenKind::Keyword(Keyword::Yield),
        !toks[pos + 1].lt_before,
        toks[pos + 1].kind == TokenKind::Punctuator(Punctuator::Mul),
        !can_start_expression(toks[pos + 2].kind),
    ensures
        spec_parse_yield(toks, pos, allow_in, allow_await) == (
            Err::<Node, ParseError>(
                ParseError::UnexpectedToken {
                    found: toks[pos + 2].kind,
                    production: Production::PrimaryExpression,
                },
            ),
            2nat,
        ),
{
    let k = toks[pos + 2].kind;
    let failure = (
        Err::<Node, ParseError>(
            ParseError::UnexpectedToken { found: k, production: Production::PrimaryExpression },
        ),
        0nat,
    );
    assert(unary_op_of(k, allow_await) is None);
    assert(spec_parse_primary(toks, pos + 2, allow_await) == failure);
    assert(spec_parse_unary(toks, pos + 2, allow_await) == failure);
    assert(spec_parse_relational(toks, pos + 2, true, allow_await) == failure);
    assert(k != TokenKind::Keyword(Keyword::Yield));
    assert(spec_parse_assignment(toks, pos + 2, true, allow_await) == failure);
}

/// `yield` followed (with no line terminator) by any token that can begin
/// an expression, other than `*`, commits to a value yield: the operand is
/// exactly one assignment-level parse under the unchanged context, and an
/// operand failure propagates unchanged.
pub proof fn lemma_value_yield_wraps_operand(
    toks: Seq<Token>,
    pos: int,
    allow_in: bool,
    allow_await: bool,
)
    requires
        0 <= pos,
        pos + 1 < toks.len(),
        toks[pos].kind == TokenKind::Keyword(Keyword::Yield),
        !toks[pos + 1].lt_before,
        toks[pos + 1].kind != TokenKind::Punctuator(Punctuator::Mul),
        can_start_expression(toks[pos + 1].kind),
    ensures
        ({
            let (r, c) = spec_parse_assignment(toks, pos + 1, allow_in, allow_await);
            spec_parse_yield(toks, pos, allow_in, allow_await) == (
                match r {
                    Ok(e) => Ok::<Node, ParseError>(
                        Node::Yield(Yield { expr: Some(Box::new(e)), delegate: false }),
                    ),
                    Err(e) => Err::<Node, ParseError>(e),
                },
                (1 + c) as nat,
            )
        }),
{
}

/// `yield` followed (with no line terminator) by a token that is not `*`
/// and cannot begin an expression parses to a bare yield with no operand,
/// and that token is left unconsumed — no error is raised.
pub proof fn lemma_non_starter_leaves_bare_yield(
    toks: Seq<Token>,
    pos: int,
    allow_in: bool,
    allow_await: bool,
)
    requires
        0 <= pos,
        pos + 1 < toks.len(),
        toks[pos].kind == TokenKind::Keyword(Keyword::Yield),
        !toks[pos + 1].lt_before,
        toks[pos + 1].kind != TokenKind::Punctuator(Punctuator::Mul),
        !can_start_expression(toks[pos + 1].kind),
    ensures
        spec_parse_yield(toks, pos, allow_in, allow_await) == (
            Ok::<Node, ParseError>(Node::Yield(Yield { expr: None, delegate: false })),
            1nat,
        ),
{
}

/// Whatever the enclosing context's `in`-permission, a delegated operand is
/// parsed the same way: the flag never leaks through `yield *`.
pub proof fn lemma_enclosing_allow_in_never_leaks(toks: Seq<Token>, pos: int, allow_await: bool)
    requires
        0 <= pos,
        pos + 1 < toks.len(),
        toks[pos].kind == TokenKind::Keyword(Keyword::Yield),
        !toks[pos + 1].lt_before,
        toks[pos + 1].kind == TokenKind::Punctuator(Punctuator::Mul),
    ensures
        spec_parse_yield(toks, pos, false, allow_await) == spec_parse_yield(
            toks,
            pos,
            true,
            allow_await,
        ),
{
}

/// Every node the `yield` production returns on its success path is
/// structurally well formed: in particular, a delegating yield always
/// carries an operand.
pub proof fn lemma_yield_parse_valid(toks: Seq<Token>, pos: int, allow_in: bool, allow_await: bool)
    requires
        0 <= pos,
    ensures
        spec_parse_yield(toks, pos, allow_in, allow_await).0 matches Ok(n) ==> node_valid(n),
    decreases toks.len() - pos, 0int,
{
    if pos < toks.len() && toks[pos].kind == TokenKind::Keyword(Keyword::Yield) {
        let p1 = pos + 1;
        if p1 >= toks.len() || toks[p1].lt_before {
        } else if toks[p1].kind == TokenKind::Punctuator(Punctuator::Mul) {
            lemma_assignment_parse_valid(toks, p1 + 1, true, allow_await);
        } else if can_start_expression(toks[p1].kind) {
            lemma_assignment_parse_valid(toks, p1, allow_in, allow_await);
        }
    }
}

/// Every node the assignment-level production returns on its success path
/// is structurally well formed.
pub proof fn lemma_assignment_parse_valid(
    toks: Seq<Token>,
    pos: int,
    allow_in: bool,
    allow_await: bool,
)
    requires
        0 <= pos,
    ensures
        spec_parse_assignment(toks, pos, allow_in, allow_await).0 matches Ok(n) ==> node_valid(n),
    decreases toks.len() - pos, 3int,
{
    if pos < toks.len() {
        if toks[pos].kind == TokenKind::Keyword(Keyword::Yield) {
            lemma_yield_parse_valid(toks, pos, allow_in, allow_await);
        } else {
            lemma_relational_parse_valid(toks, pos, allow_in, allow_await);
        }
    }
}

/// Every node the relational production returns on its success path is
/// structurally well formed.
pub proof fn lemma_relational_parse_valid(
    toks: Seq<Token>,
    pos: int,
    allow_in: bool,
    allow_await: bool,
)
    requires
        0 <= pos,
    ensures
        spec_parse_relational(toks, pos, allow_in, allow_await).0 matches Ok(n) ==> node_valid(n),
    decreases toks.len() - pos, 2int,
{
    lemma_unary_parse_valid(toks, pos, allow_await);
    let (r1, c1) = spec_parse_unary(toks, pos, allow_await);
    match r1 {
        Ok(_) => {
            let p1 = pos + c1;
            if allow_in && p1 < toks.len() && toks[p1].kind == TokenKind::Keyword(Keyword::In) {
                lemma_unary_parse_valid(toks, p1 + 1, allow_await);
            }
        },
        Err(_) => {},
    }
}

/// Every node the unary production returns on its success path is
/// structurally well formed.
pub proof fn lemma_unary_parse_valid(toks: Seq<Token>, pos: int, allow_await: bool)
    requires
        0 <= pos,
    ensures
        spec_parse_unary(toks, pos, allow_await).0 matches Ok(n) ==> node_valid(n),
    decreases toks.len() - pos, 1int,
{
    if pos < toks.len() {
        match unary_op_of(toks[pos].kind, allow_await) {
            Some(_) => {
                lemma_unary_parse_valid(toks, pos + 1, allow_await);
            },
            None => {
                lemma_primary_parse_valid(toks, pos, allow_await);
            },
        }
    }
}

/// Every node the primary production returns on its success path is
/// structurally well formed.
pub proof fn lemma_primary_parse_valid(toks: Seq<Token>, pos: int, allow_await: bool)
    requires
        0 <= pos,
    ensures
        spec_parse_primary(toks, pos, allow_await).0 matches Ok(n) ==> node_valid(n),
    decreases toks.len() - pos, 0int,
{
    if pos < toks.len() {
        match toks[pos].kind {
            TokenKind::Punctuator(Punctuator::OpenParen) => {
                lemma_assignment_parse_valid(toks, pos + 1, true, allow_await);
            },
            _ => {},
        }
    }
}

/// The canonical token sequence for a yield node's shape — the delegation
/// tag and the presence or absence of an operand — with a given identifier
/// standing for the operand where one is present.
pub open spec fn spec_shape_tokens(delegate: bool, has_operand: bool, operand_word: u32) -> Seq<
    Token,
> {
    let yield_token = Token { kind: TokenKind::Keyword(Keyword::Yield), lt_before: false };
    let star_token = Token { kind: TokenKind::Punctuator(Punctuator::Mul), lt_before: false };
    let operand_token = Token { kind: TokenKind::Identifier(operand_word), lt_before: false };
    if delegate {
        seq![yield_token, star_token, operand_token]
    } else if has_operand {
        seq![yield_token, operand_token]
    } else {
        seq![yield_token]
    }
}

/// Serializes a yield node's shape back into tokens; see
/// [`spec_shape_tokens`].
pub fn shape_tokens(delegate: bool, has_operand: bool, operand_word: u32) -> (v: Vec<Token>)
    requires
        delegate ==> has_operand,
    ensures
        v@ == spec_shape_tokens(delegate, has_operand, operand_word),
{
    let yield_token = Token { kind: TokenKind::Keyword(Keyword::Yield), lt_before: false };
    let star_token = Token { kind: TokenKind::Punctuator(Punctuator::Mul), lt_before: false };
    let operand_token = Token { kind: TokenKind::Identifier(operand_word), lt_before: false };
    let mut v: Vec<Token> = Vec::new();
    v.push(yield_token);
    if delegate {
        v.push(star_token);
        v.push(operand_token);
    } else if has_operand {
        v.push(operand_token);
    }
    proof {
        assert(v@ =~= spec_shape_tokens(delegate, has_operand, operand_word));
    }
    v
}

/// Round trip: serializing a yield node's shape and re-parsing the token
/// sequence yields a structurally identical node — the same delegation tag
/// and the same presence of an operand — with the whole sequence consumed,
/// under any context.
pub proof fn lemma_shape_round_trip(y: Yield, operand_word: u32, allow_in: bool, allow_await: bool)
    requires
        y.delegate ==> y.expr is Some,
    ensures
        ({
            let toks = spec_shape_tokens(y.delegate, y.expr is Some, operand_word);
            spec_parse_yield(toks, 0, allow_in, allow_await) == (
                Ok::<Node, ParseError>(
                    Node::Yield(
                        Yield {
                            expr: if y.expr is Some {
                                Some(Box::new(Node::Identifier(operand_word)))
                            } else {
                                None
                            },
                            delegate: y.delegate,
                        },
                    ),
                ),
                toks.len(),
            )
        }),
{
    let toks = spec_shape_tokens(y.delegate, y.expr is Some, operand_word);
    if y.delegate {
        assert(spec_parse_primary(toks, 2, allow_await) == (
            Ok::<Node, ParseError>(Node::Identifier(operand_word)),
            1nat,
        ));
        assert(spec_parse_unary(toks, 2, allow_await) == (
            Ok::<Node, ParseError>(Node::Identifier(operand_word)),
            1nat,
        ));
        assert(spec_parse_relational(toks, 2, true, allow_await) == (
            Ok::<Node, ParseError>(Node::Identifier(operand_word)),
            1nat,
        ));
        assert(spec_parse_assignment(toks, 2, true, allow_await) == (
            Ok::<Node, ParseError>(Node::Identifier(operand_word)),
            1nat,
        ));
    } else if y.expr is Some {
        assert(spec_parse_primary(toks, 1, allow_await) == (
            Ok::<Node, ParseError>(Node::Identifier(operand_word)),
            1nat,
        ));
        assert(spec_parse_unary(toks, 1, allow_await) == (
            Ok::<Node, ParseError>(Node::Identifier(operand_word)),
            1nat,
        ));
        assert(spec_parse_relational(toks, 1, allow_in, allow_await) == (
            Ok::<Node, ParseError>(Node::Identifier(operand_word)),
            1nat,
        ));
        assert(spec_parse_assignment(toks, 1, allow_in, allow_await) == (
            Ok::<Node, ParseError>(Node::Identifier(operand_word)),
            1nat,
        ));
    }
}

} // verus!
