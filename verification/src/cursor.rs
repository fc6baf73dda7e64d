use vstd::prelude::*;
use crate::text::TextRange;
use crate::token::{Token, TokenKind, StringFlavor, token_wf};
use crate::errors::{ParseError, ParseErrorType, ParseFailure, ParseResult};

verus! {

/// Well-formedness of a lexer-produced token stream (before the end-of-file
/// sentinel is appended): every token lies within the source buffer, is
/// non-empty, is not an end-of-file token, and the tokens do not overlap and
/// appear in source order.
/// The token at `i` ends at or before the token after it starts.
pub open spec fn adjacent_ordered(toks: Seq<Token>, i: int) -> bool {
    toks[i].range.end <= toks[i + 1].range.start
}

pub open spec fn stream_wf(toks: Seq<Token>, src_len: int) -> bool {
    &&& forall|i: int| 0 <= i < toks.len() ==> token_wf(#[trigger] toks[i], src_len)
    &&& forall|i: int| 0 <= i < toks.len() ==> (#[trigger] toks[i]).kind != TokenKind::EndOfFile
    &&& forall|i: int| 0 <= i < toks.len() ==> (#[trigger] toks[i]).range.start < toks[i].range.end
    &&& forall|i: int| 0 <= i < toks.len() - 1 ==> #[trigger] adjacent_ordered(toks, i)
}

/// The end-of-file sentinel token: zero width, sitting at the end of the
/// source buffer.
pub open spec fn spec_eof_token(src_len: int) -> Token {
    Token {
        kind: TokenKind::EndOfFile,
        range: TextRange { start: src_len as usize, end: src_len as usize },
        inner: TextRange { start: src_len as usize, end: src_len as usize },
        flavor: StringFlavor::Plain,
    }
}

/// The token cursor this grammar reads: the external lexer's token stream
/// (closed by an end-of-file sentinel), the source bytes the ranges index
/// into, the current position, and the end offset of the most recently
/// consumed token (used to close synthesized node ranges).
pub struct Parser {
    pub tokens: Vec<Token>,
    pub source: Vec<u8>,
    pub pos: usize,
    pub prev_end: usize,
}

impl Parser {
    /// The token under the cursor.
    pub open spec fn cur(self) -> Token {
        self.tokens@[self.pos as int]
    }

    /// The kind of the token after the one under the cursor.
    pub open spec fn spec_peek(self) -> TokenKind {
        if self.pos + 1 < self.tokens@.len() {
            self.tokens@[self.pos + 1].kind
        } else {
            TokenKind::EndOfFile
        }
    }

    /// Two parser states read the same token stream and source buffer.
    pub open spec fn same_stream(self, other: Parser) -> bool {
        self.tokens == other.tokens && self.source == other.source
    }

    /// The cursor invariant: the stream is well formed, closed by exactly one
    /// end-of-file sentinel sitting at the end of the source, the position is
    /// in bounds, and the previously consumed token ended at or before the
    /// current one starts.
    pub open spec fn wf(self) -> bool {
        &&& 1 <= self.tokens@.len()
        &&& self.pos < self.tokens@.len()
        &&& self.tokens@[self.tokens@.len() - 1] == spec_eof_token(self.source@.len() as int)
        &&& forall|i: int|
            0 <= i < self.tokens@.len() - 1 ==> token_wf(
                #[trigger] self.tokens@[i],
                self.source@.len() as int,
            )
        &&& forall|i: int|
            0 <= i < self.tokens@.len() - 1 ==> (#[trigger] self.tokens@[i]).kind
                != TokenKind::EndOfFile
        &&& forall|i: int|
            0 <= i < self.tokens@.len() - 1 ==> (#[trigger] self.tokens@[i]).range.start
                < self.tokens@[i].range.end
        &&& forall|i: int|
            0 <= i < self.tokens@.len() - 1 ==> #[trigger] adjacent_ordered(self.tokens@, i)
        &&& self.prev_end <= self.cur().range.start
        &&& (self.pos == 0 ==> self.prev_end == 0)
        &&& (self.pos > 0 ==> self.prev_end == self.tokens@[self.pos - 1].range.end)
    }

    /// The cursor `self` stands `k` tokens past `old` on the same stream,
    /// with the previous-token-end offset moved accordingly.
    pub open spec fn advanced(self, old: Parser, k: int) -> bool {
        &&& self.same_stream(old)
        &&& self.pos == old.pos + k
        &&& (k == 0 ==> self.prev_end == old.prev_end)
        &&& (k > 0 ==> self.prev_end == old.tokens@[old.pos + k - 1].range.end)
    }

    /// Builds a cursor over a lexed token stream, validating the stream and
    /// appending the end-of-file sentinel. Returns `None` exactly when the
    /// stream breaks the lexer contract (`stream_wf`).
    pub fn new(tokens: Vec<Token>, source: Vec<u8>) -> (r: Option<Parser>)
        ensures
            r is Some <==> stream_wf(tokens@, source@.len() as int),
            r matches Some(p) ==> {
                &&& p.wf()
                &&& p.pos == 0
                &&& p.prev_end == 0
                &&& p.source@ == source@
                &&& p.tokens@ == tokens@.push(spec_eof_token(source@.len() as int))
            },
    {
        let src_len = source.len();
        let n = tokens.len();
        let mut i: usize = 0;
        while i < n
            invariant
                i <= n,
                n == tokens@.len(),
                src_len == source@.len(),
                forall|j: int| 0 <= j < i ==> token_wf(#[trigger] tokens@[j], src_len as int),
                forall|j: int| 0 <= j < i ==> (#[trigger] tokens@[j]).kind != TokenKind::EndOfFile,
                forall|j: int| 0 <= j < i ==> (#[trigger] tokens@[j]).range.start < tokens@[j].range.end,
                forall|j: int| 0 <= j < i && j < n - 1 ==> #[trigger] adjacent_ordered(tokens@, j),
            decreases n - i,
        {
            let t = tokens[i];
            let ok = matches!(t.kind, TokenKind::EndOfFile) == false && t.range.start < t.range.end
                && t.range.end <= src_len && t.range.start <= t.inner.start && t.inner.start
                <= t.inner.end && t.inner.end <= t.range.end;
            if !ok {
                return None;
            }
            if i + 1 < n {
                if tokens[i].range.end > tokens[i + 1].range.start {
                    proof {
                        assert(!adjacent_ordered(tokens@, i as int));
                    }
                    return None;
                }
                proof {
                    assert(adjacent_ordered(tokens@, i as int));
                }
            }
            i += 1;
        }
        let ghost orig = tokens@;
        let mut tokens = tokens;
        tokens.push(Token {
            kind: TokenKind::EndOfFile,
            range: TextRange { start: src_len, end: src_len },
            inner: TextRange { start: src_len, end: src_len },
            flavor: StringFlavor::Plain,
        });
        proof {
            let t = tokens@;
            assert forall|j: int| 0 <= j < t.len() - 1 implies #[trigger] adjacent_ordered(
                t,
                j,
            ) by {
                if j < t.len() - 2 {
                    assert(adjacent_ordered(orig, j));
                    assert(t[j] == orig[j] && t[j + 1] == orig[j + 1]);
                } else {
                    assert(t[j] == orig[j]);
                    assert(token_wf(orig[j], src_len as int));
                }
            }
        }
        Some(Parser { tokens, source, pos: 0, prev_end: 0 })
    }

    /// The kind of the token under the cursor.
    pub fn current_token_kind(&self) -> (k: TokenKind)
        requires
            self.wf(),
        ensures
            k == self.cur().kind,
    {
        self.tokens[self.pos].kind
    }

    /// The byte range of the token under the cursor.
    pub fn current_token_range(&self) -> (r: TextRange)
        requires
            self.wf(),
        ensures
            r == self.cur().range,
    {
        self.tokens[self.pos].range
    }

    /// The token under the cursor.
    pub fn current_token(&self) -> (t: Token)
        requires
            self.wf(),
        ensures
            t == self.cur(),
    {
        self.tokens[self.pos]
    }

    /// The kind of the next token.
    pub fn peek(&self) -> (k: TokenKind)
        requires
            self.wf(),
        ensures
            k == self.spec_peek(),
    {
        let n = self.tokens.len();
        if self.pos < n - 1 {
            self.tokens[self.pos + 1].kind
        } else {
            TokenKind::EndOfFile
        }
    }

    /// Whether the token under the cursor has the given kind.
    pub fn at(&self, kind: TokenKind) -> (b: bool)
        requires
            self.wf(),
        ensures
            b == (self.cur().kind == kind),
    {
        self.tokens[self.pos].kind == kind
    }

    /// The start offset of the token under the cursor; new nodes begin here.
    pub fn node_start(&self) -> (r: usize)
        requires
            self.wf(),
        ensures
            r == self.cur().range.start,
    {
        self.tokens[self.pos].range.start
    }

    /// The end offset of the token under the cursor.
    pub fn node_end(&self) -> (r: usize)
        requires
            self.wf(),
        ensures
            r == self.cur().range.end,
    {
        self.tokens[self.pos].range.end
    }

    /// The range a node beginning at `start` spans: it closes at the end of
    /// the most recently consumed token, or is empty when nothing was
    /// consumed past `start`.
    pub open spec fn spec_node_range(self, start: usize) -> TextRange {
        if self.prev_end <= start {
            TextRange { start, end: start }
        } else {
            TextRange { start, end: self.prev_end }
        }
    }

    pub fn node_range(&self, start: usize) -> (r: TextRange)
        ensures
            r == self.spec_node_range(start),
            r.wf(),
    {
        if self.prev_end <= start {
            TextRange { start, end: start }
        } else {
            TextRange { start, end: self.prev_end }
        }
    }

    /// Advances past the token under the cursor; at the end-of-file sentinel
    /// the cursor stays put.
    pub fn bump_any(&mut self)
        requires
            old(self).wf(),
        ensures
            final(self).wf(),
            final(self).cur().kind == TokenKind::EndOfFile ==> final(self).pos == final(self).tokens@.len() - 1,
            old(self).cur().kind == TokenKind::EndOfFile ==> *final(self) == *old(self),
            old(self).cur().kind != TokenKind::EndOfFile ==> final(self).advanced(*old(self), 1),
    {
        let n = self.tokens.len();
        if self.current_token_kind() == TokenKind::EndOfFile {
            return ;
        }
        proof {
            if self.pos == self.tokens@.len() - 1 {
                assert(self.cur() == spec_eof_token(self.source@.len() as int));
            }
            assert(adjacent_ordered(self.tokens@, self.pos as int));
        }
        self.prev_end = self.tokens[self.pos].range.end;
        self.pos = self.pos + 1;
    }

    /// Advances past the token under the cursor, which the caller has
    /// checked to have the given kind.
    pub fn bump(&mut self, kind: TokenKind)
        requires
            old(self).wf(),
            old(self).cur().kind == kind,
        ensures
            final(self).wf(),
            kind == TokenKind::EndOfFile ==> *final(self) == *old(self),
            kind != TokenKind::EndOfFile ==> final(self).advanced(*old(self), 1),
    {
        self.bump_any()
    }

    /// Advances past the token under the cursor when it has the given kind;
    /// reports whether it did.
    pub fn eat(&mut self, kind: TokenKind) -> (b: bool)
        requires
            old(self).wf(),
            kind != TokenKind::EndOfFile,
        ensures
            final(self).wf(),
            b == (old(self).cur().kind == kind),
            b ==> final(self).advanced(*old(self), 1),
            !b ==> *final(self) == *old(self),
    {
        if self.at(kind) {
            self.bump_any();
            true
        } else {
            false
        }
    }

    /// Attaches the byte range of the token under the cursor to an error
    /// kind, producing the located error this library reports.
    pub fn error_at(&self, error: ParseErrorType) -> (r: ParseError)
        requires
            self.wf(),
        ensures
            r == (ParseError { error, location: self.cur().range }),
    {
        ParseError { error, location: self.current_token_range() }
    }
}

/// Every located error this cursor produces points at a real token: its
/// location is non-empty, or it is the zero-width range sitting exactly at
/// the end of the source (the end-of-file sentinel). In particular the
/// location is `[0, 0)` only when the failure is exactly at offset zero of
/// an empty remainder: never for a failure mid-source.
pub proof fn lemma_error_location_grounded(p: Parser, e: ParseErrorType)
    requires
        p.wf(),
    ensures
        ({
            let loc = (ParseError { error: e, location: p.cur().range }).location;
            loc.start < loc.end || loc.start == p.source@.len()
        }),
{
    assert(p.source.len() == p.source@.len());
    if p.pos < p.tokens@.len() - 1 {
        assert(p.tokens@[p.pos as int].range.start < p.tokens@[p.pos as int].range.end);
    } else {
        assert(p.cur() == spec_eof_token(p.source@.len() as int));
    }
}

/// Token positions and offsets move together: a later token never starts
/// before an earlier one, and an earlier token always ends at or before a
/// strictly later one starts.
pub proof fn lemma_token_positions_ordered(p: Parser, i: int, j: int)
    requires
        p.wf(),
        0 <= i <= j < p.tokens@.len(),
    ensures
        p.tokens@[i].range.start <= p.tokens@[j].range.start,
        i < j ==> p.tokens@[i].range.end <= p.tokens@[j].range.start,
    decreases j - i,
{
    if i < j {
        lemma_token_positions_ordered(p, i, j - 1);
        assert(adjacent_ordered(p.tokens@, j - 1));
        if i < j - 1 {
            assert(p.tokens@[i].range.end <= p.tokens@[j - 1].range.start);
        }
    }
}

/// The per-loop progress guard: records the token position at loop entry and
/// turns an iteration that consumed no token into a fatal internal error
/// (`ParseFailure::Stalled`) instead of an endless loop.
pub struct ParserProgress {
    pub last: Option<usize>,
}

impl ParserProgress {
    /// A fresh guard that has not yet seen any position.
    pub fn new() -> (r: ParserProgress)
        ensures
            r.last is None,
    {
        ParserProgress { last: None }
    }

    /// Checks that the cursor moved since the previous call; errs with the
    /// stalled position when it did not.
    pub fn assert_progressing(&mut self, pos: usize) -> (r: Result<(), ParseFailure>)
        ensures
            old(self).last == Some(pos) ==> r == Err::<(), ParseFailure>(ParseFailure::Stalled(
                pos,
            )) && *final(self) == *old(self),
            old(self).last != Some(pos) ==> r is Ok && final(self).last == Some(pos),
    {
        match self.last {
            Some(p) if p == pos => Err(ParseFailure::Stalled(pos)),
            _ => {
                self.last = Some(pos);
                Ok(())
            },
        }
    }
}

impl Parser {
    /// The token-match combinator primitive: succeeds exactly when the token
    /// under the cursor has the expected kind, returning that token's range
    /// and advancing by one token; otherwise reports the expectation and the
    /// found kind without advancing.
    pub fn expect(&mut self, kind: TokenKind) -> (r: ParseResult<TextRange>)
        requires
            old(self).wf(),
        ensures
            final(self).wf(),
            old(self).cur().kind == kind ==> {
                &&& r == Ok::<TextRange, ParseErrorType>(old(self).cur().range)
                &&& (kind != TokenKind::EndOfFile ==> final(self).advanced(*old(self), 1))
                &&& (kind == TokenKind::EndOfFile ==> *final(self) == *old(self))
            },
            old(self).cur().kind != kind ==> r == Err::<TextRange, ParseErrorType>(
                ParseErrorType::ExpectedToken { expected: kind, found: old(self).cur().kind },
            ) && *final(self) == *old(self),
    {
        if self.at(kind) {
            let range = self.current_token_range();
            self.bump_any();
            Ok(range)
        } else {
            Err(ParseErrorType::ExpectedToken {
                expected: kind,
                found: self.current_token_kind(),
            })
        }
    }
}

} // verus!
