//! Lexical tokens as the tokenizer hands them to the grammar.
//!
//! A token is a kind plus the one piece of layout information the grammar
//! ever reads: whether the whitespace in front of the token contains a line
//! terminator. Identifier and string payloads are interned symbols, carried
//! here as plain indices into the interning table.

use vstd::prelude::*;

verus! {

/// Keywords the expression grammar inspects.
#[derive(Clone, Copy, Debug, PartialEq, Eq, Structural)]
pub enum Keyword {
    Yield,
    Await,
    Delete,
    Void,
    TypeOf,
    New,
    This,
    Function,
    Class,
    Async,
    In,
    If,
    Else,
    Return,
}

/// Punctuators the expression grammar inspects.
#[derive(Clone, Copy, Debug, PartialEq, Eq, Structural)]
pub enum Punctuator {
    /// `*`
    Mul,
    /// `(`
    OpenParen,
    /// `)`
    CloseParen,
    /// `+`
    Add,
    /// `-`
    Sub,
    /// `!`
    Not,
    /// `~`
    Neg,
    /// `++`
    Inc,
    /// `--`
    Dec,
    /// `[`
    OpenBracket,
    /// `]`
    CloseBracket,
    /// `{`
    OpenBlock,
    /// `}`
    CloseBlock,
    /// `/`
    Div,
    /// `;`
    Semicolon,
    /// `,`
    Comma,
    /// `=`
    Assign,
    /// `:`
    Colon,
}

/// Index of the symbol an interning table predefines for the word `await`,
/// used when context makes `await` an ordinary identifier.
pub const AWAIT_WORD: u32 = 0;

/// The kind of a lexical token. Literal payloads that the grammar never
/// computes with (identifier names, string bodies, regular-expression
/// bodies and flags) are interned symbols.
#[derive(Clone, Copy, Debug, PartialEq, Eq, Structural)]
pub enum TokenKind {
    Keyword(Keyword),
    Punctuator(Punctuator),
    Identifier(u32),
    BooleanLiteral(bool),
    NullLiteral,
    StringLiteral(u32),
    TemplateNoSubstitution(u32),
    NumericLiteral(u64),
    RegularExpressionLiteral(u32, u32),
    TemplateMiddle(u32),
}

/// One lexical token: its kind and whether a line terminator stands in the
/// whitespace directly before it.
#[derive(Clone, Copy, Debug, PartialEq, Eq, Structural)]
pub struct Token {
    pub kind: TokenKind,
    /// True when the whitespace before this token contains a line break.
    pub lt_before: bool,
}

/// Whether a token of this kind can begin an expression.
///
/// This predicate is shared by every production that dispatches on "does an
/// expression start here"; keeping it in one place keeps the productions'
/// decisions in sync.
pub open spec fn can_start_expression(k: TokenKind) -> bool {
    match k {
        TokenKind::Identifier(_) => true,
        TokenKind::Punctuator(p) => match p {
            Punctuator::OpenParen => true,
            Punctuator::Add => true,
            Punctuator::Sub => true,
            Punctuator::Not => true,
            Punctuator::Neg => true,
            Punctuator::Inc => true,
            Punctuator::Dec => true,
            Punctuator::OpenBracket => true,
            Punctuator::OpenBlock => true,
            Punctuator::Div => true,
            _ => false,
        },
        TokenKind::Keyword(kw) => match kw {
            Keyword::Yield => true,
            Keyword::Await => true,
            Keyword::Delete => true,
            Keyword::Void => true,
            Keyword::TypeOf => true,
            Keyword::New => true,
            Keyword::This => true,
            Keyword::Function => true,
            Keyword::Class => true,
            Keyword::Async => true,
            _ => false,
        },
        TokenKind::BooleanLiteral(_) => true,
        TokenKind::NullLiteral => true,
        TokenKind::StringLiteral(_) => true,
        TokenKind::TemplateNoSubstitution(_) => true,
        TokenKind::NumericLiteral(_) => true,
        TokenKind::RegularExpressionLiteral(_, _) => true,
        TokenKind::TemplateMiddle(_) => true,
    }
}

/// Executable twin of [`can_start_expression`].
pub fn starts_expression(k: TokenKind) -> (b: bool)
    ensures
        b == can_start_expression(k),
{
    match k {
        TokenKind::Identifier(_) => true,
        TokenKind::Punctuator(p) => match p {
            Punctuator::OpenParen => true,
            Punctuator::Add => true,
            Punctuator::Sub => true,
            Punctuator::Not => true,
            Punctuator::Neg => true,
            Punctuator::Inc => true,
            Punctuator::Dec => true,
            Punctuator::OpenBracket => true,
            Punctuator::OpenBlock => true,
            Punctuator::Div => true,
            _ => false,
        },
        TokenKind::Keyword(kw) => match kw {
            Keyword::Yield => true,
            Keyword::Await => true,
            Keyword::Delete => true,
            Keyword::Void => true,
            Keyword::TypeOf => true,
            Keyword::New => true,
            Keyword::This => true,
            Keyword::Function => true,
            Keyword::Class => true,
            Keyword::Async => true,
            _ => false,
        },
        TokenKind::BooleanLiteral(_) => true,
        TokenKind::NullLiteral => true,
        TokenKind::StringLiteral(_) => true,
        TokenKind::TemplateNoSubstitution(_) => true,
        TokenKind::NumericLiteral(_) => true,
        TokenKind::RegularExpressionLiteral(_, _) => true,
        TokenKind::TemplateMiddle(_) => true,
    }
}

} // verus!
