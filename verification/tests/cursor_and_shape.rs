use expr_grammar::ast::{Node, Yield};
use expr_grammar::context::{AllowAwait, AllowIn};
use expr_grammar::cursor::Cursor;
use expr_grammar::diagnostics::{ParseError, Production};
use expr_grammar::laws::shape_tokens;
use expr_grammar::parser::YieldExpression;
use expr_grammar::token::{starts_expression, Keyword, Punctuator, Token, TokenKind};

fn plain(kind: TokenKind) -> Token {
    Token { kind, lt_before: false }
}

#[test]
fn peek_does_not_consume() {
    let cursor = Cursor::new(vec![
        plain(TokenKind::Identifier(1)),
        plain(TokenKind::Punctuator(Punctuator::Semicolon)),
    ]);
    assert_eq!(cursor.peek(0), Some(plain(TokenKind::Identifier(1))));
    assert_eq!(cursor.peek(1), Some(plain(TokenKind::Punctuator(Punctuator::Semicolon))));
    assert_eq!(cursor.peek(2), None);
    assert_eq!(cursor.index(), 0);
}

#[test]
fn next_consumes_in_order() {
    let mut cursor = Cursor::new(vec![
        plain(TokenKind::Identifier(1)),
        plain(TokenKind::NullLiteral),
    ]);
    assert_eq!(cursor.next(), plain(TokenKind::Identifier(1)));
    assert_eq!(cursor.next(), plain(TokenKind::NullLiteral));
    assert_eq!(cursor.index(), 2);
}

#[test]
fn expect_consumes_only_on_match() {
    let mut cursor = Cursor::new(vec![plain(TokenKind::Keyword(Keyword::Yield))]);
    let wrong = cursor.expect(TokenKind::NullLiteral, Production::PrimaryExpression);
    assert_eq!(
        wrong,
        Err(ParseError::UnexpectedToken {
            found: TokenKind::Keyword(Keyword::Yield),
            production: Production::PrimaryExpression,
        })
    );
    assert_eq!(cursor.index(), 0);
    let right = cursor.expect(TokenKind::Keyword(Keyword::Yield), Production::YieldExpression);
    assert_eq!(right, Ok(plain(TokenKind::Keyword(Keyword::Yield))));
    assert_eq!(cursor.index(), 1);
    let exhausted = cursor.expect(TokenKind::NullLiteral, Production::PrimaryExpression);
    assert_eq!(exhausted, Err(ParseError::AbruptEnd));
}

#[test]
fn line_terminator_lookahead() {
    let cursor = Cursor::new(vec![
        plain(TokenKind::Keyword(Keyword::Yield)),
        Token { kind: TokenKind::Identifier(1), lt_before: true },
    ]);
    assert_eq!(cursor.peek_is_line_terminator(0), Some(false));
    assert_eq!(cursor.peek_is_line_terminator(1), Some(true));
    assert_eq!(cursor.peek_is_line_terminator(2), None);
}

#[test]
fn expression_start_predicate() {
    assert!(starts_expression(TokenKind::Identifier(1)));
    assert!(starts_expression(TokenKind::Keyword(Keyword::Yield)));
    assert!(starts_expression(TokenKind::Keyword(Keyword::Async)));
    assert!(starts_expression(TokenKind::Punctuator(Punctuator::Div)));
    assert!(starts_expression(TokenKind::NumericLiteral(0)));
    assert!(!starts_expression(TokenKind::Punctuator(Punctuator::Mul)));
    assert!(!starts_expression(TokenKind::Punctuator(Punctuator::Semicolon)));
    assert!(!starts_expression(TokenKind::Keyword(Keyword::In)));
    assert!(!starts_expression(TokenKind::Keyword(Keyword::Else)));
}

#[test]
fn production_descriptions() {
    assert_eq!(Production::YieldExpression.description(), "yield expression");
    assert_eq!(Production::PrimaryExpression.description(), "primary expression");
}

fn shape_of(node: &Node) -> (bool, bool) {
    match node {
        Node::Yield(y) => (y.delegate, y.expr.is_some()),
        _ => panic!("expected a yield node"),
    }
}

fn reparse_shape(delegate: bool, has_operand: bool) -> Node {
    let tokens = shape_tokens(delegate, has_operand, 3);
    let mut cursor = Cursor::new(tokens);
    let parsed = YieldExpression::new(AllowIn(false), AllowAwait(false)).parse(&mut cursor);
    parsed.expect("a shape token sequence parses")
}

#[test]
fn shape_round_trip_bare() {
    let node = Node::Yield(Yield { expr: None, delegate: false });
    let (delegate, has_operand) = shape_of(&node);
    assert_eq!(shape_of(&reparse_shape(delegate, has_operand)), (delegate, has_operand));
}

#[test]
fn shape_round_trip_value() {
    let node = Node::Yield(Yield {
        expr: Some(Box::new(Node::NumericLiteral(99))),
        delegate: false,
    });
    let (delegate, has_operand) = shape_of(&node);
    assert_eq!(shape_of(&reparse_shape(delegate, has_operand)), (delegate, has_operand));
}

#[test]
fn shape_round_trip_delegate() {
    let node = Node::Yield(Yield {
        expr: Some(Box::new(Node::Identifier(4))),
        delegate: true,
    });
    let (delegate, has_operand) = shape_of(&node);
    assert_eq!(shape_of(&reparse_shape(delegate, has_operand)), (delegate, has_operand));
}

#[test]
fn shape_tokens_are_canonical() {
    assert_eq!(
        shape_tokens(true, true, 3),
        vec![
            plain(TokenKind::Keyword(Keyword::Yield)),
            plain(TokenKind::Punctuator(Punctuator::Mul)),
            plain(TokenKind::Identifier(3)),
        ]
    );
    assert_eq!(
        shape_tokens(false, true, 3),
        vec![
            plain(TokenKind::Keyword(Keyword::Yield)),
            plain(TokenKind::Identifier(3)),
        ]
    );
    assert_eq!(
        shape_tokens(false, false, 3),
        vec![plain(TokenKind::Keyword(Keyword::Yield))]
    );
}
