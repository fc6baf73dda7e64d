use vstd::prelude::*;
use crate::text::TextRange;
use crate::token::TokenKind;
use crate::errors::{ParseErrorType, ParseResult};
use crate::cursor::Parser;

verus! {

/// A parser combinator: one match-and-consume step over the token cursor.
/// Its whole behavior is pinned by four spec functions: on the states where
/// `ok_at` holds, `parse` returns `spec_output` and leaves the cursor in
/// `next_state`; elsewhere it returns `spec_err` and leaves the cursor in
/// `fail_state` (the state the sub-steps that did run left behind).
pub trait Combinator: Sized {
    type Output;

    /// Whether the combinator succeeds on the cursor state `p`.
    spec fn ok_at(&self, p: Parser) -> bool;

    /// The cursor state after a successful parse from `p`.
    spec fn next_state(&self, p: Parser) -> Parser;

    /// The cursor state after a failing parse from `p`: exactly the side
    /// effects of the sub-steps that ran before the failure.
    spec fn fail_state(&self, p: Parser) -> Parser;

    /// The value a successful parse from `p` returns.
    spec fn spec_output(&self, p: Parser) -> Self::Output;

    /// The error a failing parse from `p` returns.
    spec fn spec_err(&self, p: Parser) -> ParseErrorType;

    fn parse(&self, parser: &mut Parser) -> (r: ParseResult<Self::Output>)
        requires
            old(parser).wf(),
        ensures
            final(parser).wf(),
            final(parser).same_stream(*old(parser)),
            self.ok_at(*old(parser)) ==> (r matches Ok(v) && v == self.spec_output(*old(parser))
                && *final(parser) == self.next_state(*old(parser))),
            !self.ok_at(*old(parser)) ==> (r matches Err(e) && e == self.spec_err(*old(parser))
                && *final(parser) == self.fail_state(*old(parser))),
    ;
}

/// Matching a specific token kind: succeeds exactly when the current token
/// has that kind, returning its range and consuming it.
impl Combinator for TokenKind {
    type Output = TextRange;

    open spec fn ok_at(&self, p: Parser) -> bool {
        p.cur().kind == *self
    }

    open spec fn next_state(&self, p: Parser) -> Parser {
        if *self == TokenKind::EndOfFile {
            p
        } else {
            Parser { pos: (p.pos + 1) as usize, prev_end: p.cur().range.end, ..p }
        }
    }

    open spec fn fail_state(&self, p: Parser) -> Parser {
        p
    }

    open spec fn spec_output(&self, p: Parser) -> TextRange {
        p.cur().range
    }

    open spec fn spec_err(&self, p: Parser) -> ParseErrorType {
        ParseErrorType::ExpectedToken { expected: *self, found: p.cur().kind }
    }

    fn parse(&self, parser: &mut Parser) -> (r: ParseResult<TextRange>) {
        parser.expect(*self)
    }
}

/// Fixed-length sequencing: runs the first combinator, then the second on
/// the state it left, short-circuiting on the first failure and otherwise
/// returning both results in order. Longer fixed sequences nest pairs.
impl<A: Combinator, B: Combinator> Combinator for (A, B) {
    type Output = (A::Output, B::Output);

    open spec fn ok_at(&self, p: Parser) -> bool {
        self.0.ok_at(p) && self.1.ok_at(self.0.next_state(p))
    }

    open spec fn next_state(&self, p: Parser) -> Parser {
        self.1.next_state(self.0.next_state(p))
    }

    open spec fn fail_state(&self, p: Parser) -> Parser {
        if !self.0.ok_at(p) {
            self.0.fail_state(p)
        } else {
            self.1.fail_state(self.0.next_state(p))
        }
    }

    open spec fn spec_output(&self, p: Parser) -> (A::Output, B::Output) {
        (self.0.spec_output(p), self.1.spec_output(self.0.next_state(p)))
    }

    open spec fn spec_err(&self, p: Parser) -> ParseErrorType {
        if !self.0.ok_at(p) {
            self.0.spec_err(p)
        } else {
            self.1.spec_err(self.0.next_state(p))
        }
    }

    fn parse(&self, parser: &mut Parser) -> (r: ParseResult<(A::Output, B::Output)>) {
        let a = match self.0.parse(parser) {
            Ok(a) => a,
            Err(e) => {
                return Err(e);
            },
        };
        let b = match self.1.parse(parser) {
            Ok(b) => b,
            Err(e) => {
                return Err(e);
            },
        };
        Ok((a, b))
    }
}

} // verus!
