use expr_grammar::ast::{Node, UnaryOp, Yield};
use expr_grammar::context::{AllowAwait, AllowIn};
use expr_grammar::cursor::Cursor;
use expr_grammar::diagnostics::{ParseError, Production};
use expr_grammar::parser::YieldExpression;
use expr_grammar::token::{Keyword, Punctuator, Token, TokenKind, AWAIT_WORD};

fn t(kind: TokenKind) -> Token {
    Token { kind, lt_before: false }
}

fn t_after_break(kind: TokenKind) -> Token {
    Token { kind, lt_before: true }
}

fn parse_yield(tokens: Vec<Token>, allow_in: bool, allow_await: bool) -> (Result<Node, ParseError>, usize) {
    let mut cursor = Cursor::new(tokens);
    let result = YieldExpression::new(AllowIn(allow_in), AllowAwait(allow_await)).parse(&mut cursor);
    (result, cursor.index())
}

fn bare_yield() -> Node {
    Node::Yield(Yield { expr: None, delegate: false })
}

#[test]
fn bare_yield_alone() {
    let (r, used) = parse_yield(vec![t(TokenKind::Keyword(Keyword::Yield))], true, true);
    assert_eq!(r, Ok(bare_yield()));
    assert_eq!(used, 1);
}

#[test]
fn line_terminator_ends_yield() {
    let (r, used) = parse_yield(
        vec![
            t(TokenKind::Keyword(Keyword::Yield)),
            t_after_break(TokenKind::Identifier(3)),
        ],
        true,
        true,
    );
    assert_eq!(r, Ok(bare_yield()));
    assert_eq!(used, 1);
}

#[test]
fn line_terminator_before_star_ends_yield() {
    let (r, used) = parse_yield(
        vec![
            t(TokenKind::Keyword(Keyword::Yield)),
            t_after_break(TokenKind::Punctuator(Punctuator::Mul)),
            t(TokenKind::Identifier(3)),
        ],
        true,
        true,
    );
    assert_eq!(r, Ok(bare_yield()));
    assert_eq!(used, 1);
}

#[test]
fn delegating_yield_wraps_operand() {
    let (r, used) = parse_yield(
        vec![
            t(TokenKind::Keyword(Keyword::Yield)),
            t(TokenKind::Punctuator(Punctuator::Mul)),
            t(TokenKind::Identifier(7)),
        ],
        true,
        true,
    );
    assert_eq!(
        r,
        Ok(Node::Yield(Yield {
            expr: Some(Box::new(Node::Identifier(7))),
            delegate: true,
        }))
    );
    assert_eq!(used, 3);
}

#[test]
fn delegate_missing_operand_is_abrupt_end() {
    let (r, _) = parse_yield(
        vec![
            t(TokenKind::Keyword(Keyword::Yield)),
            t(TokenKind::Punctuator(Punctuator::Mul)),
        ],
        true,
        true,
    );
    assert_eq!(r, Err(ParseError::AbruptEnd));
}

#[test]
fn delegate_non_starter_is_unexpected_token() {
    let (r, _) = parse_yield(
        vec![
            t(TokenKind::Keyword(Keyword::Yield)),
            t(TokenKind::Punctuator(Punctuator::Mul)),
            t(TokenKind::Punctuator(Punctuator::Semicolon)),
        ],
        true,
        true,
    );
    assert_eq!(
        r,
        Err(ParseError::UnexpectedToken {
            found: TokenKind::Punctuator(Punctuator::Semicolon),
            production: Production::PrimaryExpression,
        })
    );
}

#[test]
fn value_yield_wraps_operand() {
    let (r, used) = parse_yield(
        vec![
            t(TokenKind::Keyword(Keyword::Yield)),
            t(TokenKind::NumericLiteral(42)),
        ],
        true,
        true,
    );
    assert_eq!(
        r,
        Ok(Node::Yield(Yield {
            expr: Some(Box::new(Node::NumericLiteral(42))),
            delegate: false,
        }))
    );
    assert_eq!(used, 2);
}

#[test]
fn non_starter_leaves_bare_yield_and_token() {
    let (r, used) = parse_yield(
        vec![
            t(TokenKind::Keyword(Keyword::Yield)),
            t(TokenKind::Punctuator(Punctuator::Semicolon)),
        ],
        true,
        true,
    );
    assert_eq!(r, Ok(bare_yield()));
    assert_eq!(used, 1);
}

#[test]
fn close_paren_leaves_bare_yield() {
    let (r, used) = parse_yield(
        vec![
            t(TokenKind::Keyword(Keyword::Yield)),
            t(TokenKind::Punctuator(Punctuator::CloseParen)),
        ],
        false,
        true,
    );
    assert_eq!(r, Ok(bare_yield()));
    assert_eq!(used, 1);
}

#[test]
fn allow_in_is_not_leaked_into_delegated_operand() {
    // Enclosing context forbids `in`; the delegated operand still parses it.
    let (r, used) = parse_yield(
        vec![
            t(TokenKind::Keyword(Keyword::Yield)),
            t(TokenKind::Punctuator(Punctuator::Mul)),
            t(TokenKind::Identifier(1)),
            t(TokenKind::Keyword(Keyword::In)),
            t(TokenKind::Identifier(2)),
        ],
        false,
        true,
    );
    assert_eq!(
        r,
        Ok(Node::Yield(Yield {
            expr: Some(Box::new(Node::InExpr(
                Box::new(Node::Identifier(1)),
                Box::new(Node::Identifier(2)),
            ))),
            delegate: true,
        }))
    );
    assert_eq!(used, 5);
}

#[test]
fn allow_in_false_stops_value_operand_before_in() {
    let (r, used) = parse_yield(
        vec![
            t(TokenKind::Keyword(Keyword::Yield)),
            t(TokenKind::Identifier(1)),
            t(TokenKind::Keyword(Keyword::In)),
            t(TokenKind::Identifier(2)),
        ],
        false,
        true,
    );
    assert_eq!(
        r,
        Ok(Node::Yield(Yield {
            expr: Some(Box::new(Node::Identifier(1))),
            delegate: false,
        }))
    );
    assert_eq!(used, 2);
}

#[test]
fn allow_in_true_lets_value_operand_take_in() {
    let (r, used) = parse_yield(
        vec![
            t(TokenKind::Keyword(Keyword::Yield)),
            t(TokenKind::Identifier(1)),
            t(TokenKind::Keyword(Keyword::In)),
            t(TokenKind::Identifier(2)),
        ],
        true,
        true,
    );
    assert_eq!(
        r,
        Ok(Node::Yield(Yield {
            expr: Some(Box::new(Node::InExpr(
                Box::new(Node::Identifier(1)),
                Box::new(Node::Identifier(2)),
            ))),
            delegate: false,
        }))
    );
    assert_eq!(used, 4);
}

#[test]
fn await_is_unary_operator_when_allowed() {
    let (r, used) = parse_yield(
        vec![
            t(TokenKind::Keyword(Keyword::Yield)),
            t(TokenKind::Keyword(Keyword::Await)),
            t(TokenKind::Identifier(9)),
        ],
        true,
        true,
    );
    assert_eq!(
        r,
        Ok(Node::Yield(Yield {
            expr: Some(Box::new(Node::UnaryExpr(
                UnaryOp::Await,
                Box::new(Node::Identifier(9)),
            ))),
            delegate: false,
        }))
    );
    assert_eq!(used, 3);
}

#[test]
fn await_is_identifier_when_not_allowed() {
    let (r, used) = parse_yield(
        vec![
            t(TokenKind::Keyword(Keyword::Yield)),
            t(TokenKind::Keyword(Keyword::Await)),
        ],
        true,
        false,
    );
    assert_eq!(
        r,
        Ok(Node::Yield(Yield {
            expr: Some(Box::new(Node::Identifier(AWAIT_WORD))),
            delegate: false,
        }))
    );
    assert_eq!(used, 2);
}

#[test]
fn unary_operators_chain() {
    let (r, _) = parse_yield(
        vec![
            t(TokenKind::Keyword(Keyword::Yield)),
            t(TokenKind::Punctuator(Punctuator::Not)),
            t(TokenKind::Punctuator(Punctuator::Sub)),
            t(TokenKind::BooleanLiteral(true)),
        ],
        true,
        true,
    );
    assert_eq!(
        r,
        Ok(Node::Yield(Yield {
            expr: Some(Box::new(Node::UnaryExpr(
                UnaryOp::LogicalNot,
                Box::new(Node::UnaryExpr(
                    UnaryOp::Minus,
                    Box::new(Node::BooleanLiteral(true)),
                )),
            ))),
            delegate: false,
        }))
    );
}

#[test]
fn parenthesized_operand() {
    let (r, used) = parse_yield(
        vec![
            t(TokenKind::Keyword(Keyword::Yield)),
            t(TokenKind::Punctuator(Punctuator::OpenParen)),
            t(TokenKind::StringLiteral(5)),
            t(TokenKind::Punctuator(Punctuator::CloseParen)),
        ],
        true,
        true,
    );
    assert_eq!(
        r,
        Ok(Node::Yield(Yield {
            expr: Some(Box::new(Node::StringLiteral(5))),
            delegate: false,
        }))
    );
    assert_eq!(used, 4);
}

#[test]
fn parentheses_force_in_permissive() {
    // `yield (a in b)` under AllowIn = false still parses the `in`.
    let (r, _) = parse_yield(
        vec![
            t(TokenKind::Keyword(Keyword::Yield)),
            t(TokenKind::Punctuator(Punctuator::OpenParen)),
            t(TokenKind::Identifier(1)),
            t(TokenKind::Keyword(Keyword::In)),
            t(TokenKind::Identifier(2)),
            t(TokenKind::Punctuator(Punctuator::CloseParen)),
        ],
        false,
        true,
    );
    assert_eq!(
        r,
        Ok(Node::Yield(Yield {
            expr: Some(Box::new(Node::InExpr(
                Box::new(Node::Identifier(1)),
                Box::new(Node::Identifier(2)),
            ))),
            delegate: false,
        }))
    );
}

#[test]
fn unclosed_parenthesis_is_abrupt_end() {
    let (r, _) = parse_yield(
        vec![
            t(TokenKind::Keyword(Keyword::Yield)),
            t(TokenKind::Punctuator(Punctuator::OpenParen)),
            t(TokenKind::Identifier(1)),
        ],
        true,
        true,
    );
    assert_eq!(r, Err(ParseError::AbruptEnd));
}

#[test]
fn unclosed_parenthesis_is_unexpected_token() {
    let (r, _) = parse_yield(
        vec![
            t(TokenKind::Keyword(Keyword::Yield)),
            t(TokenKind::Punctuator(Punctuator::OpenParen)),
            t(TokenKind::Identifier(1)),
            t(TokenKind::Punctuator(Punctuator::Comma)),
        ],
        true,
        true,
    );
    assert_eq!(
        r,
        Err(ParseError::UnexpectedToken {
            found: TokenKind::Punctuator(Punctuator::Comma),
            production: Production::PrimaryExpression,
        })
    );
}

#[test]
fn nested_yield_operand() {
    let (r, used) = parse_yield(
        vec![
            t(TokenKind::Keyword(Keyword::Yield)),
            t(TokenKind::Keyword(Keyword::Yield)),
            t(TokenKind::NullLiteral),
        ],
        true,
        true,
    );
    assert_eq!(
        r,
        Ok(Node::Yield(Yield {
            expr: Some(Box::new(Node::Yield(Yield {
                expr: Some(Box::new(Node::NullLiteral)),
                delegate: false,
            }))),
            delegate: false,
        }))
    );
    assert_eq!(used, 3);
}

#[test]
fn delegated_nested_yield_operand() {
    let (r, used) = parse_yield(
        vec![
            t(TokenKind::Keyword(Keyword::Yield)),
            t(TokenKind::Punctuator(Punctuator::Mul)),
            t(TokenKind::Keyword(Keyword::Yield)),
        ],
        true,
        true,
    );
    assert_eq!(
        r,
        Ok(Node::Yield(Yield {
            expr: Some(Box::new(bare_yield())),
            delegate: true,
        }))
    );
    assert_eq!(used, 3);
}

#[test]
fn missing_yield_keyword_is_unexpected_token() {
    let (r, used) = parse_yield(vec![t(TokenKind::Identifier(4))], true, true);
    assert_eq!(
        r,
        Err(ParseError::UnexpectedToken {
            found: TokenKind::Identifier(4),
            production: Production::YieldExpression,
        })
    );
    assert_eq!(used, 0);
}

#[test]
fn empty_input_is_abrupt_end() {
    let (r, used) = parse_yield(Vec::new(), true, true);
    assert_eq!(r, Err(ParseError::AbruptEnd));
    assert_eq!(used, 0);
}

#[test]
fn literal_operands() {
    let cases = vec![
        (TokenKind::NullLiteral, Node::NullLiteral),
        (TokenKind::BooleanLiteral(false), Node::BooleanLiteral(false)),
        (TokenKind::StringLiteral(8), Node::StringLiteral(8)),
        (TokenKind::TemplateNoSubstitution(9), Node::TemplateLiteral(9)),
        (TokenKind::NumericLiteral(10), Node::NumericLiteral(10)),
        (TokenKind::RegularExpressionLiteral(11, 12), Node::RegExpLiteral(11, 12)),
        (TokenKind::Keyword(Keyword::This), Node::This),
    ];
    for (kind, node) in cases {
        let (r, used) = parse_yield(
            vec![t(TokenKind::Keyword(Keyword::Yield)), t(kind)],
            true,
            true,
        );
        assert_eq!(
            r,
            Ok(Node::Yield(Yield { expr: Some(Box::new(node)), delegate: false }))
        );
        assert_eq!(used, 2);
    }
}
