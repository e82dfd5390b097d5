//! The token cursor: a pull-based, peekable token sequence.
//!
//! Productions look ahead with [`Cursor::peek`] and
//! [`Cursor::peek_is_line_terminator`], and consume with [`Cursor::next`] or
//! [`Cursor::expect`]. Peeking is side-effect free; only `next` and `expect`
//! advance the position, and the token sequence itself never changes.

use crate::diagnostics::{ParseError, Production};
use crate::token::{Token, TokenKind};
use vstd::prelude::*;

verus! {

/// What [`Cursor::expect`] returns and how far it advances, as a function of
/// the token sequence and position it starts from: the matching token and
/// one consumed token on success; an error and no consumption otherwise.
pub open spec fn spec_expect(
    toks: Seq<Token>,
    pos: int,
    kind: TokenKind,
    production: Production,
) -> (Result<Token, ParseError>, nat)
    recommends
        0 <= pos <= toks.len(),
{
    if pos >= toks.len() {
        (Err(ParseError::AbruptEnd), 0)
    } else if toks[pos].kind == kind {
        (Ok(toks[pos]), 1)
    } else {
        (Err(ParseError::UnexpectedToken { found: toks[pos].kind, production }), 0)
    }
}

/// A peekable cursor over a token sequence, exclusively owned by one
/// in-progress parse.
pub struct Cursor {
    tokens: Vec<Token>,
    pos: usize,
}

impl Cursor {
    /// The full token sequence under the cursor.
    pub closed spec fn toks(&self) -> Seq<Token> {
        self.tokens@
    }

    /// The position of the next unconsumed token.
    pub closed spec fn position(&self) -> int {
        self.pos as int
    }

    /// The cursor's position never runs past the end of the sequence.
    pub open spec fn wf(&self) -> bool {
        0 <= self.position() <= self.toks().len()
    }

    /// A cursor at the start of the given token sequence.
    pub fn new(tokens: Vec<Token>) -> (c: Cursor)
        ensures
            c.wf(),
            c.toks() == tokens@,
            c.position() == 0,
    {
        Cursor { tokens, pos: 0 }
    }

    /// The position of the next unconsumed token.
    pub fn index(&self) -> (i: usize)
        ensures
            i as int == self.position(),
    {
        self.pos
    }

    /// Looks at the token `offset` positions ahead without consuming;
    /// `None` signals the end of the stream.
    pub fn peek(&self, offset: usize) -> (r: Option<Token>)
        requires
            self.wf(),
        ensures
            self.position() + offset < self.toks().len() ==> r == Some(
                self.toks()[self.position() + offset],
            ),
            self.position() + offset >= self.toks().len() ==> r is None,
    {
        if offset < self.tokens.len() - self.pos {
            Some(self.tokens[self.pos + offset])
        } else {
            None
        }
    }

    /// Consumes and returns the next token. Callers confirm by a prior peek
    /// (or a successful `expect`) that a token exists.
    pub fn next(&mut self) -> (t: Token)
        requires
            old(self).wf(),
            old(self).position() < old(self).toks().len(),
        ensures
            final(self).wf(),
            final(self).toks() == old(self).toks(),
            final(self).position() == old(self).position() + 1,
            t == old(self).toks()[old(self).position()],
    {
        let n: usize = self.tokens.len();
        assert(self.pos < n);
        let t = self.tokens[self.pos];
        self.pos = self.pos + 1;
        t
    }

    /// Consumes the next token only if it matches `kind`; otherwise reports
    /// the mismatch (or the end of the stream) without consuming, naming
    /// `production` in the diagnostic.
    pub fn expect(&mut self, kind: TokenKind, production: Production) -> (r: Result<
        Token,
        ParseError,
    >)
        requires
            old(self).wf(),
        ensures
            final(self).wf(),
            final(self).toks() == old(self).toks(),
            r == spec_expect(old(self).toks(), old(self).position(), kind, production).0,
            final(self).position() == old(self).position() + spec_expect(
                old(self).toks(),
                old(self).position(),
                kind,
                production,
            ).1,
    {
        match self.peek(0) {
            None => Err(ParseError::AbruptEnd),
            Some(t) => {
                if t.kind == kind {
                    let consumed = self.next();
                    Ok(consumed)
                } else {
                    Err(ParseError::UnexpectedToken { found: t.kind, production })
                }
            },
        }
    }

    /// Reports whether the whitespace before the token `offset` positions
    /// ahead contains a line terminator; `None` at the end of the stream.
    /// This is the sole input to automatic-termination decisions.
    pub fn peek_is_line_terminator(&self, offset: usize) -> (r: Option<bool>)
        requires
            self.wf(),
        ensures
            self.position() + offset < self.toks().len() ==> r == Some(
                self.toks()[self.position() + offset].lt_before,
            ),
            self.position() + offset >= self.toks().len() ==> r is None,
    {
        match self.peek(offset) {
            Some(t) => Some(t.lt_before),
            None => None,
        }
    }
}

} // verus!
