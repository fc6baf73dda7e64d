use vstd::prelude::*;
use vstd::slice::{slice_subrange, slice_to_vec};
use crate::text::TextRange;
use crate::token::{Token, TokenKind, StringFlavor};
use crate::ast::{
    AttrName, Arguments, BinOpKind, DictItem, Expr, Identifier, Keyword, Stmt, is_ox_attr,
    is_string_lit, ox_id,
};
use crate::cursor::{Parser, ParserProgress};
use crate::errors::{ParseErrorType, ParseFailure};

verus! {

/// The semantic kind of an I/O redirection: `>` writes, `>>` appends, `<`
/// reads.
#[derive(Clone, Copy, PartialEq, Eq, Structural, Debug, Hash)]
pub enum RedirectType {
    Write,
    Append,
    Read,
}

/// Whether a token kind is one of the three redirection operators.
pub open spec fn is_redirect_op(k: TokenKind) -> bool {
    k == TokenKind::Greater || k == TokenKind::RightShift || k == TokenKind::Less
}

/// The redirection kind a redirection operator token stands for.
pub open spec fn spec_redirect_type(k: TokenKind) -> RedirectType {
    match k {
        TokenKind::Greater => RedirectType::Write,
        TokenKind::RightShift => RedirectType::Append,
        _ => RedirectType::Read,
    }
}

impl Parser {
    /// Builds the attribute access `ox.<name>` on the runtime-support
    /// object; the access spans `range` when one is given, else the current
    /// token's range.
    pub fn xonsh_attr(&mut self, name: AttrName, range: Option<TextRange>) -> (e: Expr)
        requires
            old(self).wf(),
        ensures
            *final(self) == *old(self),
            is_ox_attr(
                e,
                name,
                old(self).cur().range,
                match range {
                    Some(r) => r,
                    None => old(self).cur().range,
                },
            ),
    {
        let id: Vec<u8> = vec![111u8, 120u8];
        let name_range = self.current_token_range();
        let xonsh = Expr::Name { id, range: name_range };
        let attr_range = match range {
            Some(r) => r,
            None => name_range,
        };
        xonsh.attr(name, attr_range)
    }

    /// A synthesized identifier spanning the current token.
    pub fn to_identifier(&self, name: AttrName) -> (r: Identifier)
        requires
            self.wf(),
        ensures
            r == (Identifier { id: name, range: self.cur().range }),
    {
        Identifier { id: name, range: self.current_token_range() }
    }

    /// The string literal holding the exact source bytes that `range` spans.
    pub fn to_string_literal(&self, range: TextRange) -> (e: Expr)
        requires
            self.wf(),
            range.start <= range.end,
            range.end <= self.source@.len(),
        ensures
            is_string_lit(
                e,
                self.source@.subrange(range.start as int, range.end as int),
                StringFlavor::Plain,
                range,
            ),
    {
        let value = slice_to_vec(slice_subrange(self.source.as_slice(), range.start, range.end));
        string_literal(range, value)
    }

    /// The boolean literal `True`, zero-width at the current position.
    pub fn literal_true(&self) -> (e: Expr)
        requires
            self.wf(),
        ensures
            e == (Expr::BooleanLiteral {
                value: true,
                range: self.spec_node_range(self.cur().range.start),
            }),
    {
        Expr::BooleanLiteral { value: true, range: self.node_range(self.node_start()) }
    }

    /// Consumes exactly one redirection operator (`>`, `>>` or `<`) and
    /// returns the redirection kind it stands for. The caller has already
    /// confirmed that the current token is one of the three.
    pub fn parse_redirect_type(&mut self) -> (t: RedirectType)
        requires
            old(self).wf(),
            is_redirect_op(old(self).cur().kind),
        ensures
            final(self).wf(),
            final(self).advanced(*old(self), 1),
            t == spec_redirect_type(old(self).cur().kind),
    {
        let typ = match self.current_token_kind() {
            TokenKind::Greater => RedirectType::Write,
            TokenKind::RightShift => RedirectType::Append,
            _ => RedirectType::Read,
        };
        self.bump_any();
        typ
    }

    /// Applies the string promotions: a path-flagged string literal becomes
    /// `ox.path(s)`, a regex-flagged one `ox.Pattern(s).regex()`; every other
    /// expression passes through unchanged. At most one promotion applies.
    pub fn parse_special_strings(&mut self, expr: Expr, start: usize) -> (e: Expr)
        requires
            old(self).wf(),
        ensures
            *final(self) == *old(self),
            !(expr matches Expr::StringLiteral { flavor: StringFlavor::Path, .. } || expr matches
                Expr::StringLiteral { flavor: StringFlavor::Regex, .. }) ==> e == expr,
            (expr matches Expr::StringLiteral { flavor: StringFlavor::Path, .. }) ==> (e matches
                Expr::Call { func, arguments, range } && is_ox_attr(
                    *func,
                    AttrName::Path,
                    old(self).cur().range,
                    old(self).cur().range,
                ) && arguments.args@.len() == 1 && arguments.args@[0] == expr
                && arguments.keywords@.len() == 0 && range == old(self).spec_node_range(start)),
            (expr matches Expr::StringLiteral { flavor: StringFlavor::Regex, .. }) ==> (e matches
                Expr::Call { func, arguments, range } && arguments.args@.len() == 0
                && arguments.keywords@.len() == 0 && range == old(self).spec_node_range(start)
                && (*func matches Expr::Attribute { value, attr, range: arange }
                && attr == AttrName::Regex && arange == old(self).spec_node_range(start)
                && (*value matches Expr::Call { func: pfunc, arguments: pargs, range: prange }
                && is_ox_attr(
                    *pfunc,
                    AttrName::Pattern,
                    old(self).cur().range,
                    old(self).cur().range,
                ) && pargs.args@.len() == 1 && pargs.args@[0] == expr && pargs.keywords@.len() == 0
                && prange == old(self).spec_node_range(start)))),
    {
        let is_path = matches!(expr, Expr::StringLiteral { flavor: StringFlavor::Path, .. });
        let is_regex = matches!(expr, Expr::StringLiteral { flavor: StringFlavor::Regex, .. });
        if is_path {
            let range = self.node_range(start);
            let func = self.xonsh_attr(AttrName::Path, None);
            func.call0(vec![expr], range)
        } else if is_regex {
            let range = self.node_range(start);
            let func = self.xonsh_attr(AttrName::Pattern, None);
            func.call0(vec![expr], range).attr(AttrName::Regex, range).call_empty(range)
        } else {
            expr
        }
    }

    /// Consumes the trailing `?` (or `??`) after an already-parsed expression
    /// and wraps the expression in `ox.help(...)` (one question mark) or
    /// `ox.superhelp(...)` (two).
    pub fn parse_help_expr(&mut self, lhs: Expr, start: usize) -> (e: Expr)
        requires
            old(self).wf(),
            old(self).cur().kind == TokenKind::Question,
        ensures
            final(self).wf(),
            final(self).same_stream(*old(self)),
            old(self).spec_peek() == TokenKind::Question ==> final(self).advanced(*old(self), 2),
            old(self).spec_peek() != TokenKind::Question ==> final(self).advanced(*old(self), 1),
            e matches Expr::Call { func, arguments, range } && arguments.args@.len() == 1
                && arguments.args@[0] == lhs && arguments.keywords@.len() == 0 && ({
                let method = if old(self).spec_peek() == TokenKind::Question {
                    AttrName::Superhelp
                } else {
                    AttrName::Help
                };
                is_ox_attr(*func, method, final(self).cur().range, final(self).cur().range)
            }) && range == (if old(self).cur().range.end <= start {
                TextRange { start, end: start }
            } else {
                TextRange { start, end: old(self).cur().range.end }
            }),
    {
        self.bump_any();
        let range = self.node_range(start);
        let method = if self.at(TokenKind::Question) {
            self.bump_any();
            AttrName::Superhelp
        } else {
            AttrName::Help
        };
        let args = vec![lhs];
        let func = self.xonsh_attr(method, None);
        func.call0(args, range)
    }
}


/// The per-kind accumulator of redirection pairs: within one command group,
/// each kind's `(source, destination)` pairs are collected in arrival order
/// and folded into one keyword argument once the group is done.
pub struct RedirectMap {
    pub writes: Vec<DictItem>,
    pub appends: Vec<DictItem>,
    pub reads: Vec<DictItem>,
}

impl RedirectMap {
    /// The pairs collected so far for one redirection kind, in arrival order.
    pub open spec fn entry(self, t: RedirectType) -> Seq<DictItem> {
        match t {
            RedirectType::Write => self.writes@,
            RedirectType::Append => self.appends@,
            RedirectType::Read => self.reads@,
        }
    }

    pub fn new() -> (r: RedirectMap)
        ensures
            forall|t: RedirectType| #[trigger] r.entry(t) == Seq::<DictItem>::empty(),
    {
        RedirectMap { writes: Vec::new(), appends: Vec::new(), reads: Vec::new() }
    }

    /// Appends one pair to the given kind's sequence, leaving the others
    /// untouched.
    pub fn push(&mut self, t: RedirectType, item: DictItem)
        ensures
            final(self).entry(t) == old(self).entry(t).push(item),
            forall|u: RedirectType| u != t ==> #[trigger] final(self).entry(u) == old(self).entry(
                u,
            ),
    {
        match t {
            RedirectType::Write => self.writes.push(item),
            RedirectType::Append => self.appends.push(item),
            RedirectType::Read => self.reads.push(item),
        }
    }
}

/// The entries stand in strict source order: each one ends at or before the
/// next begins.
pub open spec fn dict_items_ordered(items: Seq<DictItem>) -> bool {
    forall|i: int, j: int|
        0 <= i < j < items.len() ==> (#[trigger] items[i].spec_range()).end
            <= (#[trigger] items[j].spec_range()).start
}

/// Every entry spans a well-formed range.
pub open spec fn dict_items_wf(items: Seq<DictItem>) -> bool {
    forall|i: int|
        0 <= i < items.len() ==> (#[trigger] items[i].spec_range()).start
            <= items[i].spec_range().end
}

/// The token at `j` starts exactly where the token before it ends: the two
/// abut with no whitespace between them.
pub open spec fn abuts_prev(toks: Seq<Token>, j: int) -> bool {
    toks[j].range.start == toks[j - 1].range.end
}

/// The number of `(` tokens among the stream positions `[lo, hi)`.
pub open spec fn lpar_count(toks: Seq<Token>, lo: int, hi: int) -> int
    decreases hi - lo,
{
    if lo >= hi {
        0
    } else {
        lpar_count(toks, lo, hi - 1) + if toks[hi - 1].kind == TokenKind::Lpar {
            1int
        } else {
            0int
        }
    }
}

/// Where the greedy bare-word scan stops when it continues from position
/// `i` with `nesting` unclosed `(` tokens already seen: the first position
/// at or after `i` holding the end of input, a process operator, a token
/// that does not abut its predecessor, or the closing token outside all
/// parentheses.
pub open spec fn word_end(toks: Seq<Token>, i: int, closing: TokenKind, nesting: int) -> int
    decreases toks.len() - i,
{
    if i < 0 || i >= toks.len() {
        i
    } else {
        let t = toks[i];
        if t.kind == TokenKind::EndOfFile || t.kind.spec_is_proc_op() || (t.range.start != toks[i
            - 1].range.end) || (t.kind == closing && nesting == 0) {
            i
        } else {
            word_end(
                toks,
                i + 1,
                closing,
                if t.kind == TokenKind::Lpar {
                    nesting + 1
                } else {
                    nesting
                },
            )
        }
    }
}

/// The same stream read from position `j`.
pub open spec fn at_pos(p: Parser, j: int) -> Parser {
    Parser { pos: j as usize, ..p }
}

/// The scan never moves backwards.
pub proof fn lemma_word_end_ge(toks: Seq<Token>, i: int, closing: TokenKind, nesting: int)
    ensures
        word_end(toks, i, closing, nesting) >= i,
    decreases toks.len() - i,
{
    if 0 <= i < toks.len() {
        let t = toks[i];
        if !(t.kind == TokenKind::EndOfFile || t.kind.spec_is_proc_op() || (t.range.start != toks[
            i - 1].range.end) || (t.kind == closing && nesting == 0)) {
            lemma_word_end_ge(
                toks,
                i + 1,
                closing,
                if t.kind == TokenKind::Lpar {
                    nesting + 1
                } else {
                    nesting
                },
            );
        }
    }
}

/// The token at `j` begins an ordinary bare word of a command group: the
/// loop classifies it as a positional argument and none of the delegated
/// atom, interpolation or operator routes applies.
pub open spec fn starts_word(p: Parser, closing: TokenKind, j: int) -> bool {
    let k = p.tokens@[j].kind;
    &&& spec_classify(at_pos(p, j), closing) == GroupStep::Argument
    &&& k != TokenKind::At && k != TokenKind::Lbrace && k != TokenKind::String && k
        != TokenKind::FStringStart && k != TokenKind::Lpar && k != TokenKind::Dollar && k
        != TokenKind::DollarLParen && k != TokenKind::AtDollarLParen
    &&& !k.spec_is_proc_op()
    &&& k != TokenKind::EndOfFile
}

/// `e` is the bare-word literal captured from position `j`: the exact source
/// bytes from that token's start to the end of the scan's last token.
pub open spec fn word_lit_at(e: Expr, p: Parser, closing: TokenKind, j: int) -> bool {
    let we = word_end(p.tokens@, j + 1, closing, 0);
    let endoff = p.tokens@[we - 1].range.end;
    is_string_lit(
        e,
        p.source@.subrange(p.tokens@[j].range.start as int, endoff as int),
        StringFlavor::Plain,
        TextRange { start: p.tokens@[j].range.start, end: endoff },
    )
}

/// The position after `n` bare words read from position `i`.
pub open spec fn word_run_pos(toks: Seq<Token>, closing: TokenKind, i: int, n: int) -> int
    decreases n,
{
    if n <= 0 {
        i
    } else {
        word_run_pos(toks, closing, word_end(toks, i + 1, closing, 0), n - 1)
    }
}

/// A command group made of exactly `n` bare words followed by its terminal:
/// the closing token, a pipe, or `&` immediately before the closing token.
pub open spec fn words_group(p: Parser, closing: TokenKind, i: int, n: int) -> bool
    decreases n,
{
    if n < 0 {
        false
    } else if n == 0 {
        &&& 0 <= i < p.tokens@.len()
        &&& (spec_classify(at_pos(p, i), closing) == GroupStep::Close || spec_classify(
            at_pos(p, i),
            closing,
        ) == GroupStep::Pipe || spec_classify(at_pos(p, i), closing) == GroupStep::Background)
    } else {
        &&& 0 <= i < p.tokens@.len()
        &&& starts_word(p, closing, i)
        &&& words_group(p, closing, word_end(p.tokens@, i + 1, closing, 0), n - 1)
    }
}

/// Reading one more word extends the run by one scan from the position the
/// previous words reached.
pub proof fn lemma_word_run_step(toks: Seq<Token>, closing: TokenKind, i: int, k: int)
    requires
        k >= 1,
    ensures
        word_run_pos(toks, closing, i, k) == word_end(
            toks,
            word_run_pos(toks, closing, i, k - 1) + 1,
            closing,
            0,
        ),
    decreases k,
{
    if k > 1 {
        lemma_word_run_step(toks, closing, word_end(toks, i + 1, closing, 0), k - 1);
    } else {
        assert(word_run_pos(toks, closing, i, 1) == word_run_pos(
            toks,
            closing,
            word_end(toks, i + 1, closing, 0),
            0,
        ));
        assert(word_run_pos(toks, closing, word_end(toks, i + 1, closing, 0), 0) == word_end(
            toks,
            i + 1,
            closing,
            0,
        ));
    }
}

/// A word run never moves backwards.
pub proof fn lemma_word_run_ge(toks: Seq<Token>, closing: TokenKind, i: int, n: int)
    requires
        n >= 0,
    ensures
        word_run_pos(toks, closing, i, n) >= i,
    decreases n,
{
    if n > 0 {
        lemma_word_end_ge(toks, i + 1, closing, 0);
        lemma_word_run_ge(toks, closing, word_end(toks, i + 1, closing, 0), n - 1);
    }
}

/// A words-only group read past its first `k` words is still a words-only
/// group of the remaining words.
pub proof fn lemma_words_group_tail(p: Parser, closing: TokenKind, i: int, n: int, k: int)
    requires
        words_group(p, closing, i, n),
        0 <= k <= n,
    ensures
        words_group(p, closing, word_run_pos(p.tokens@, closing, i, k), n - k),
    decreases k,
{
    if k > 0 {
        lemma_words_group_tail(p, closing, word_end(p.tokens@, i + 1, closing, 0), n - 1, k - 1);
    }
}

/// Exactly `n` bare words read from position `i`, with no claim about what
/// follows them.
pub open spec fn words_prefix(p: Parser, closing: TokenKind, i: int, n: int) -> bool
    decreases n,
{
    if n < 0 {
        false
    } else if n == 0 {
        true
    } else {
        &&& 0 <= i < p.tokens@.len()
        &&& starts_word(p, closing, i)
        &&& words_prefix(p, closing, word_end(p.tokens@, i + 1, closing, 0), n - 1)
    }
}

/// A word prefix read past its first `k` words is still a word prefix.
pub proof fn lemma_words_prefix_tail(p: Parser, closing: TokenKind, i: int, n: int, k: int)
    requires
        words_prefix(p, closing, i, n),
        0 <= k <= n,
    ensures
        words_prefix(p, closing, word_run_pos(p.tokens@, closing, i, k), n - k),
    decreases k,
{
    if k > 0 {
        lemma_words_prefix_tail(p, closing, word_end(p.tokens@, i + 1, closing, 0), n - 1, k - 1);
    }
}

/// A command group made of `n` bare words, one redirection with the implicit
/// empty source, a bare-word destination, and then the closing token.
pub open spec fn words_redirect_group(p: Parser, closing: TokenKind, i: int, n: int) -> bool {
    let toks = p.tokens@;
    let j = word_run_pos(toks, closing, i, n);
    let we = word_end(toks, j + 2, closing, 0);
    &&& n >= 0
    &&& words_prefix(p, closing, i, n)
    &&& 0 <= j < toks.len()
    &&& spec_classify(at_pos(p, j), closing) == GroupStep::RedirectPlain
    &&& j + 1 < toks.len() && toks[j + 1].kind != TokenKind::EndOfFile
    &&& 0 <= we < toks.len()
    &&& spec_classify(at_pos(p, we), closing) == GroupStep::Close
}

/// A words-only group is a property of the token stream and source alone:
/// it carries over to any cursor over the same stream.
pub proof fn lemma_words_group_same_stream(
    p1: Parser,
    p2: Parser,
    closing: TokenKind,
    i: int,
    n: int,
)
    requires
        p1.tokens == p2.tokens,
        p1.source == p2.source,
        words_group(p1, closing, i, n),
    ensures
        words_group(p2, closing, i, n),
    decreases n,
{
    if n > 0 {
        lemma_words_group_same_stream(
            p1,
            p2,
            closing,
            word_end(p1.tokens@, i + 1, closing, 0),
            n - 1,
        );
    }
}

/// Two words-only groups joined by one pipe: `n0` words, `|`, `n1` words,
/// then the second group's terminal (the closing token, possibly preceded by
/// the background marker), with no further pipe after the construct.
pub open spec fn two_words_groups_pipe(
    p: Parser,
    closing: TokenKind,
    i: int,
    n0: int,
    n1: int,
) -> bool {
    let toks = p.tokens@;
    let j0 = word_run_pos(toks, closing, i, n0);
    let g1 = j0 + 1;
    let j1 = word_run_pos(toks, closing, g1, n1);
    let cls1 = spec_classify(at_pos(p, j1), closing);
    let end = if cls1 == GroupStep::Background {
        j1 + 2
    } else {
        j1 + 1
    };
    &&& words_group(p, closing, i, n0)
    &&& spec_classify(at_pos(p, j0), closing) == GroupStep::Pipe
    &&& words_group(p, closing, g1, n1)
    &&& (cls1 == GroupStep::Close || cls1 == GroupStep::Background)
    &&& 0 <= end < toks.len()
    &&& toks[end].kind != TokenKind::Vbar
}

/// The node spans a well-formed range inside `[lo, hi]`: it lies within the
/// region the producing rule consumed.
pub open spec fn expr_spanned(e: Expr, lo: int, hi: int) -> bool {
    lo <= e.spec_range().start && e.spec_range().start <= e.spec_range().end
        && e.spec_range().end <= hi
}

/// The cursor at `i` sits on a plain string literal, `+`, a second plain
/// string literal, and then something other than `+`: the two-term sum the
/// embedded expression subset folds into one addition node.
pub open spec fn two_string_sum_at(p: Parser, i: int) -> bool {
    &&& 0 <= i && i + 3 < p.tokens@.len()
    &&& p.tokens@[i].kind == TokenKind::String && p.tokens@[i].flavor == StringFlavor::Plain
    &&& p.tokens@[i + 1].kind == TokenKind::Plus
    &&& p.tokens@[i + 2].kind == TokenKind::String && p.tokens@[i + 2].flavor
        == StringFlavor::Plain
    &&& p.tokens@[i + 3].kind != TokenKind::Plus
}

/// The addition node `s1 + s2` over the two string tokens' contents,
/// spanning the first literal's start to the second's end.
pub open spec fn is_string_sum(e: Expr, src: Seq<u8>, t1: Token, t2: Token) -> bool {
    e matches Expr::BinOp { left, op, right, range } && op == BinOpKind::Add && is_string_lit(
        *left,
        src.subrange(t1.inner.start as int, t1.inner.end as int),
        StringFlavor::Plain,
        t1.range,
    ) && is_string_lit(
        *right,
        src.subrange(t2.inner.start as int, t2.inner.end as int),
        StringFlavor::Plain,
        t2.range,
    ) && range == (TextRange { start: t1.range.start, end: t2.range.end })
}

/// A redirection keyword argument as this grammar produces it: named
/// `writes`, `appends` or `reads`, its value a non-empty dictionary whose
/// entries stand in source order and whose range spans exactly the first
/// entry's start to the last entry's end.
pub open spec fn is_redirect_keyword(kw: Keyword) -> bool {
    &&& kw.arg matches Some(id) && (id.id == AttrName::Writes || id.id == AttrName::Appends
        || id.id == AttrName::Reads)
    &&& kw.value matches Expr::Dict { items, range } && items@.len() >= 1 && dict_items_ordered(
        items@,
    ) && range.start == items@[0].spec_range().start && range.end
        == items@.last().spec_range().end
}

/// The fixed emission order of a command group's keyword arguments: the
/// background marker first, then one dictionary per redirection kind.
pub open spec fn kw_rank(kw: Keyword) -> int {
    match kw.arg {
        Some(id) => match id.id {
            AttrName::Bg => 0,
            AttrName::Writes => 1,
            AttrName::Appends => 2,
            AttrName::Reads => 3,
            _ => 4,
        },
        None => 4,
    }
}

/// The background keyword argument: `bg=True`.
pub open spec fn is_bg_keyword(kw: Keyword) -> bool {
    kw.arg matches Some(id) && id.id == AttrName::Bg && kw.value matches Expr::BooleanLiteral {
        value: true,
        ..
    }
}

/// Every keyword argument a command group carries is either `bg=True` or a
/// well-formed redirection keyword.
pub open spec fn group_keywords_ok(a: Arguments) -> bool {
    forall|i: int|
        0 <= i < a.keywords@.len() ==> is_bg_keyword(#[trigger] a.keywords@[i])
            || is_redirect_keyword(a.keywords@[i])
}

/// A chain `ox.cmd(group)` followed by zero or more `.pipe(group)` calls,
/// each group's keywords well formed.
pub open spec fn is_cmd_chain(e: Expr) -> bool
    decreases e,
{
    e matches Expr::Call { func, arguments, .. } && group_keywords_ok(arguments) && (match *func {
        Expr::Attribute { value, attr, .. } => (attr == AttrName::Cmd && (*value matches Expr::Name {
            id,
            ..
        } && id@ == ox_id())) || (attr == AttrName::Pipe && is_cmd_chain(*value)),
        _ => false,
    })
}

/// A whole subprocess expression: a command chain wrapped in a final
/// argumentless `.<method>()` call.
pub open spec fn is_subproc_expr(e: Expr, method: AttrName) -> bool {
    e matches Expr::Call { func, arguments, .. } && arguments.args@.len() == 0
        && arguments.keywords@.len() == 0 && (*func matches Expr::Attribute { value, attr, .. }
        && attr == method && is_cmd_chain(*value))
}

/// What the command-group loop does with the current token, decided from the
/// current kind, one token of lookahead, and (for a bare name) whether its
/// source text is one of the six reserved descriptor names.
#[derive(Clone, Copy, PartialEq, Eq, Structural, Debug)]
pub enum GroupStep {
    /// The closing delimiter: consume it and end the group.
    Close,
    /// A pipe: end the group without consuming it.
    Pipe,
    /// A redirection with an explicit descriptor source.
    RedirectWithSrc,
    /// A redirection with the implicit empty source.
    RedirectPlain,
    /// `&` immediately before the closing delimiter: mark the group as
    /// backgrounded.
    Background,
    /// Anything else: one positional command argument.
    Argument,
}

/// The six reserved descriptor names: `o`, `out`, `e`, `err`, `a`, `all`.
pub open spec fn spec_is_descriptor_name(s: Seq<u8>) -> bool {
    ||| (s.len() == 1 && (s[0] == 111 || s[0] == 101 || s[0] == 97))
    ||| (s.len() == 3 && ((s[0] == 111 && s[1] == 117 && s[2] == 116) || (s[0] == 101 && s[1]
        == 114 && s[2] == 114) || (s[0] == 97 && s[1] == 108 && s[2] == 108)))
}

/// The classification the command-group loop applies to the state `p`. The
/// arms are tried in this order; in particular `&` becomes a redirection
/// source when a redirection operator follows, a background marker only when
/// the closing delimiter itself follows, and plain literal content otherwise.
pub open spec fn spec_classify(p: Parser, closing: TokenKind) -> GroupStep {
    let cur = p.cur();
    let pk = p.spec_peek();
    if cur.kind == closing {
        GroupStep::Close
    } else if cur.kind == TokenKind::Vbar {
        GroupStep::Pipe
    } else if (cur.kind == TokenKind::Int || cur.kind == TokenKind::Amper) && is_redirect_op(pk) {
        GroupStep::RedirectWithSrc
    } else if cur.kind == TokenKind::Name && is_redirect_op(pk) && spec_is_descriptor_name(
        p.source@.subrange(cur.range.start as int, cur.range.end as int),
    ) {
        GroupStep::RedirectWithSrc
    } else if is_redirect_op(cur.kind) {
        GroupStep::RedirectPlain
    } else if cur.kind == TokenKind::Amper && pk == closing {
        GroupStep::Background
    } else {
        GroupStep::Argument
    }
}

impl Parser {
    /// Whether the current token's source text is one of the six reserved
    /// descriptor names.
    fn descriptor_name_at(&self) -> (b: bool)
        requires
            self.wf(),
            self.cur().kind != TokenKind::EndOfFile,
        ensures
            b == spec_is_descriptor_name(
                self.source@.subrange(self.cur().range.start as int, self.cur().range.end as int),
            ),
    {
        let r = self.current_token_range();
        proof {
            assert(self.cur().range.end <= self.source@.len());
        }
        let ghost s = self.source@.subrange(r.start as int, r.end as int);
        let n = r.end - r.start;
        if n == 1 {
            let b0 = self.source[r.start];
            proof {
                assert(s[0] == self.source@[r.start as int]);
            }
            b0 == 111 || b0 == 101 || b0 == 97
        } else if n == 3 {
            let b0 = self.source[r.start];
            let b1 = self.source[r.start + 1];
            let b2 = self.source[r.start + 2];
            proof {
                assert(s[0] == self.source@[r.start as int]);
                assert(s[1] == self.source@[r.start as int + 1]);
                assert(s[2] == self.source@[r.start as int + 2]);
            }
            (b0 == 111 && b1 == 117 && b2 == 116) || (b0 == 101 && b1 == 114 && b2 == 114) || (b0
                == 97 && b1 == 108 && b2 == 108)
        } else {
            false
        }
    }

    /// Classifies the current token for the command-group loop.
    fn classify(&self, closing: TokenKind) -> (g: GroupStep)
        requires
            self.wf(),
            closing != TokenKind::EndOfFile,
        ensures
            g == spec_classify(*self, closing),
    {
        let cur = self.current_token_kind();
        let pk = self.peek();
        let pk_redirect = matches!(pk, TokenKind::Greater | TokenKind::RightShift | TokenKind::Less);
        if cur == closing {
            GroupStep::Close
        } else if cur == TokenKind::Vbar {
            GroupStep::Pipe
        } else if (cur == TokenKind::Int || cur == TokenKind::Amper) && pk_redirect {
            GroupStep::RedirectWithSrc
        } else if cur == TokenKind::Name && pk_redirect && self.descriptor_name_at() {
            GroupStep::RedirectWithSrc
        } else if matches!(cur, TokenKind::Greater | TokenKind::RightShift | TokenKind::Less) {
            GroupStep::RedirectPlain
        } else if cur == TokenKind::Amper && pk == closing {
            GroupStep::Background
        } else {
            GroupStep::Argument
        }
    }

    /// The greedy bare-word rule: starting from the current token, consumes a
    /// maximal run of immediately abutting tokens (no whitespace between
    /// them), stopping before a process operator, before the closing
    /// delimiter at parenthesis-nesting level zero, at any whitespace gap,
    /// and at the end of input so the scan always terminates. The consumed
    /// byte range becomes one string literal holding its exact source text.
    #[verifier::rlimit(50)]
    pub fn parse_proc_single(&mut self, closing: TokenKind) -> (e: Expr)
        requires
            old(self).wf(),
        ensures
            final(self).stepped(*old(self)),
            old(self).cur().kind == TokenKind::EndOfFile ==> (*final(self) == *old(self)
                && is_string_lit(
                e,
                Seq::<u8>::empty(),
                StringFlavor::Plain,
                old(self).cur().range,
            )),
            old(self).cur().kind != TokenKind::EndOfFile ==> ({
                let toks = old(self).tokens@;
                &&& old(self).pos < final(self).pos < toks.len()
                &&& final(self).pos == word_end(toks, old(self).pos + 1, closing, 0)
                &&& old(self).cur().range.start <= final(self).prev_end
                &&& final(self).prev_end == toks[final(self).pos - 1].range.end
                &&& (forall|j: int|
                    old(self).pos < j < final(self).pos ==> #[trigger] abuts_prev(toks, j))
                &&& (forall|j: int|
                    old(self).pos < j < final(self).pos ==> !(#[trigger] toks[j]).kind.spec_is_proc_op())
                &&& (final(self).cur().kind == TokenKind::EndOfFile
                    || final(self).cur().kind.spec_is_proc_op() || final(self).cur().range.start
                    != final(self).prev_end || (final(self).cur().kind == closing && lpar_count(
                    toks,
                    old(self).pos + 1,
                    final(self).pos as int,
                ) == 0))
                &&& (forall|j: int|
                    old(self).pos < j < final(self).pos ==> ((#[trigger] toks[j]).kind == closing
                        ==> lpar_count(toks, old(self).pos + 1, j) > 0))
                &&& is_string_lit(
                    e,
                    old(self).source@.subrange(
                        old(self).cur().range.start as int,
                        final(self).prev_end as int,
                    ),
                    StringFlavor::Plain,
                    TextRange { start: old(self).cur().range.start, end: final(self).prev_end },
                )
            }),
    {
        let start = self.node_start();
        let mut offset = self.node_end();
        let mut nesting: usize = 0;
        self.bump_any();

        loop
            invariant
                self.wf(),
                self.same_stream(*old(self)),
                start == old(self).cur().range.start,
                old(self).cur().kind == TokenKind::EndOfFile ==> (*self == *old(self) && offset
                    == old(self).cur().range.end),
                start <= offset <= self.source@.len(),
                old(self).cur().kind != TokenKind::EndOfFile ==> ({
                    let toks = old(self).tokens@;
                    &&& old(self).pos < self.pos < toks.len()
                    &&& offset == self.prev_end
                    &&& self.prev_end == toks[self.pos - 1].range.end
                    &&& nesting < self.pos
                    &&& (forall|j: int|
                        old(self).pos < j < self.pos ==> #[trigger] abuts_prev(toks, j))
                    &&& nesting == lpar_count(toks, old(self).pos + 1, self.pos as int)
                    &&& word_end(toks, old(self).pos + 1, closing, 0) == word_end(
                        toks,
                        self.pos as int,
                        closing,
                        nesting as int,
                    )
                    &&& (forall|j: int|
                        old(self).pos < j < self.pos ==> !(#[trigger] toks[j]).kind.spec_is_proc_op())
                    &&& (forall|j: int|
                        old(self).pos < j < self.pos ==> ((#[trigger] toks[j]).kind == closing
                            ==> lpar_count(toks, old(self).pos + 1, j) > 0))
                }),
            ensures
                self.cur().kind == TokenKind::EndOfFile || self.cur().kind.spec_is_proc_op()
                    || self.cur().range.start != offset || (self.cur().kind == closing && nesting
                    == 0),
            decreases self.tokens@.len() - self.pos,
        {
            let tk = self.current_token_kind();
            if tk == TokenKind::EndOfFile || tk.is_proc_op() {
                break ;
            }
            if offset != self.node_start() {
                break ;
            }
            if tk == closing && nesting == 0 {
                break ;
            }
            if tk == TokenKind::Lpar {
                nesting = nesting + 1;
            }
            offset = self.node_end();
            self.bump_any();
        }

        proof {
            assert(start <= offset <= self.source@.len());
            if old(self).cur().kind == TokenKind::EndOfFile {
                assert(self.source@.subrange(start as int, offset as int) =~= Seq::<u8>::empty());
            }
        }
        self.to_string_literal(TextRange { start, end: offset })
    }

    /// Parses one redirection: determines the source side (the descriptor
    /// token when one was looked ahead, else the implicit empty string),
    /// consumes the operator, parses the destination as a bare word, and
    /// appends the pair to the operator's kind in arrival order.
    pub fn parse_redirection_with_src(
        &mut self,
        closing: TokenKind,
        redirects: &mut RedirectMap,
        src: Option<TokenKind>,
    ) -> (typ: RedirectType)
        requires
            old(self).wf(),
            match src {
                None => is_redirect_op(old(self).cur().kind),
                Some(k) => (k == TokenKind::Int || k == TokenKind::Name || k == TokenKind::Amper)
                    && old(self).cur().kind == k && is_redirect_op(old(self).spec_peek()),
            },
        ensures
            final(self).stepped(*old(self)),
            old(self).pos < final(self).pos,
            typ == spec_redirect_type(
                match src {
                    None => old(self).cur().kind,
                    Some(_) => old(self).spec_peek(),
                },
            ),
            final(redirects).entry(typ) == old(redirects).entry(typ).push(
                final(redirects).entry(typ).last(),
            ),
            final(redirects).entry(typ).len() == old(redirects).entry(typ).len() + 1,
            forall|u: RedirectType| u != typ ==> #[trigger] final(redirects).entry(u) == old(
                redirects,
            ).entry(u),
            ({
                let item = final(redirects).entry(typ).last();
                let src_bytes = old(self).source@;
                &&& item.key is Some
                &&& item.spec_range().start >= old(self).prev_end
                &&& item.spec_range().start <= item.spec_range().end
                &&& (item.spec_range().end <= final(self).prev_end || final(self).cur().kind
                    == TokenKind::EndOfFile)
                &&& item.spec_range().end <= final(self).source@.len()
                &&& (item.value matches Expr::StringLiteral { value, flavor, range } && value@
                    == src_bytes.subrange(range.start as int, range.end as int) && flavor
                    == StringFlavor::Plain)
                &&& ({
                    let op = (match src {
                        None => old(self).pos as int,
                        Some(_) => old(self).pos + 1,
                    });
                    let dtok = old(self).tokens@[op + 1];
                    &&& (dtok.kind != TokenKind::EndOfFile ==> ((item.value matches
                        Expr::StringLiteral { range, .. } && range.start == dtok.range.start
                        && range.end == final(self).prev_end) && final(self).pos == word_end(
                        old(self).tokens@,
                        op + 2,
                        closing,
                        0,
                    )))
                    &&& (dtok.kind == TokenKind::EndOfFile ==> ((item.value matches
                        Expr::StringLiteral { range, .. } && range == dtok.range)
                        && final(self).pos == op + 1))
                })
                &&& (match src {
                    None => item.key matches Some(k) && is_string_lit(
                        k,
                        Seq::<u8>::empty(),
                        StringFlavor::Plain,
                        old(self).cur().range,
                    ),
                    Some(sk) => if sk == TokenKind::Int {
                        item.key matches Some(Expr::IntLiteral { digits, range }) && digits@
                            == src_bytes.subrange(
                            old(self).cur().range.start as int,
                            old(self).cur().range.end as int,
                        ) && range == old(self).cur().range
                    } else {
                        item.key matches Some(k) && is_string_lit(
                            k,
                            src_bytes.subrange(
                                old(self).cur().range.start as int,
                                old(self).cur().range.end as int,
                            ),
                            StringFlavor::Plain,
                            old(self).cur().range,
                        )
                    },
                })
            }),
        decreases self.tokens@.len() - self.pos, 5int,
    {
        let src_expr = match src {
            Some(k) => {
                match k {
                    TokenKind::Int => {
                        match self.parse_atom() {
                            Ok(e) => e,
                            Err(_) => vstd::pervasive::unreached(),
                        }
                    },
                    TokenKind::Name => {
                        let name_expr = match self.parse_name() {
                            Ok(e) => e,
                            Err(_) => vstd::pervasive::unreached(),
                        };
                        let r = name_expr.range();
                        self.to_string_literal(r)
                    },
                    _ => {
                        let val = match self.expect(TokenKind::Amper) {
                            Ok(r) => r,
                            Err(_) => vstd::pervasive::unreached(),
                        };
                        self.to_string_literal(val)
                    },
                }
            },
            None => string_literal(self.current_token_range(), Vec::new()),
        };

        let typ = self.parse_redirect_type();
        let dest = self.parse_proc_single(closing);
        redirects.push(typ, DictItem { key: Some(src_expr), value: dest });
        typ
    }

    /// Parses one positional command argument, after checking forward
    /// progress: interpolations and decorations, atoms (strings, f-strings,
    /// parenthesized and dollar forms), a process-operator token taken as its
    /// literal text, or a greedy bare word.
    pub fn parse_proc_arg(&mut self, progress: &mut ParserProgress, closing: TokenKind) -> (r:
        Result<Expr, ParseFailure>)
        requires
            old(self).wf(),
        ensures
            final(self).stepped(*old(self)),
            old(progress).last == Some(old(self).pos) ==> (r == Err::<Expr, ParseFailure>(
                ParseFailure::Stalled(old(self).pos),
            ) && *final(self) == *old(self) && *final(progress) == *old(progress)),
            old(progress).last != Some(old(self).pos) ==> final(progress).last == Some(
                old(self).pos,
            ),
            r matches Ok(e) ==> expr_spanned(
                e,
                old(self).cur().range.start as int,
                final(self).cur().range.start as int,
            ),
            ({
                let k = old(self).cur().kind;
                old(progress).last != Some(old(self).pos) && k != TokenKind::At && k
                    != TokenKind::Lbrace && k != TokenKind::String && k != TokenKind::FStringStart
                    && k != TokenKind::Lpar && k != TokenKind::Dollar && k
                    != TokenKind::DollarLParen && k != TokenKind::AtDollarLParen
                    && !k.spec_is_proc_op() && k != TokenKind::EndOfFile
            }) ==> (r matches Ok(e) && final(self).pos == word_end(
                old(self).tokens@,
                old(self).pos + 1,
                closing,
                0,
            ) && word_lit_at(e, *old(self), closing, old(self).pos as int)),
            (old(progress).last != Some(old(self).pos) && old(self).cur().kind.spec_is_proc_op())
                ==> (r matches Ok(e) && final(self).advanced(*old(self), 1) && is_string_lit(
                e,
                old(self).source@.subrange(
                    old(self).cur().range.start as int,
                    old(self).cur().range.end as int,
                ),
                StringFlavor::Plain,
                old(self).cur().range,
            )),
        decreases self.tokens@.len() - self.pos, 7int,
    {
        match progress.assert_progressing(self.pos) {
            Ok(_) => {},
            Err(f) => {
                return Err(f);
            },
        }
        let kind = self.current_token_kind();

        match kind {
            TokenKind::At | TokenKind::Lbrace => self.parse_decorator_or_interpolation(),
            TokenKind::String | TokenKind::FStringStart | TokenKind::Lpar | TokenKind::Dollar
                | TokenKind::DollarLParen | TokenKind::AtDollarLParen => self.parse_atom(),
            _ => {
                if kind.is_proc_op() {
                    let range = self.current_token_range();
                    proof {
                        assert(range.end <= self.source@.len());
                    }
                    self.bump_any();
                    Ok(self.to_string_literal(range))
                } else {
                    proof {
                        if self.cur().kind == TokenKind::EndOfFile && self.pos < self.tokens@.len()
                            - 1 {
                            assert(self.tokens@[self.pos as int].kind != TokenKind::EndOfFile);
                        }
                    }
                    let pre: usize = self.pos;
                    let e = self.parse_proc_single(closing);
                    proof {
                        if pre < self.pos {
                            crate::cursor::lemma_token_positions_ordered(
                                *self,
                                pre as int,
                                self.pos - 1,
                            );
                        }
                    }
                    Ok(e)
                }
            },
        }
    }

    /// Parses an inline interpolation or decoration: at `{`, a full
    /// expression up to the matching `}` returned unwrapped; at `@(...)`, a
    /// call to `ox.list_of_strs_or_callables(...)`; at `@name"pattern"`, the
    /// starred call `ox.Pattern(pattern).invoke(name)`. Any other token after
    /// `@` is a missing expression.
    pub fn parse_decorator_or_interpolation(&mut self) -> (r: Result<Expr, ParseFailure>)
        requires
            old(self).wf(),
            old(self).cur().kind == TokenKind::At || old(self).cur().kind == TokenKind::Lbrace,
        ensures
            final(self).stepped(*old(self)),
            r matches Ok(_) ==> old(self).pos < final(self).pos,
            r matches Ok(e) ==> expr_spanned(
                e,
                old(self).cur().range.start as int,
                final(self).cur().range.start as int,
            ),
            old(self).cur().kind == TokenKind::Lbrace ==> (r matches Ok(_) ==> (final(self).pos
                >= 2 && final(self).tokens@[final(self).pos - 1].kind == TokenKind::Rbrace)),
            (old(self).cur().kind == TokenKind::Lbrace && old(self).spec_peek() == TokenKind::Name
                && old(self).pos + 2 < old(self).tokens@.len() && old(self).tokens@[old(self).pos
                + 2].kind == TokenKind::Rbrace) ==> (r matches Ok(e) && final(self).advanced(
                *old(self),
                3,
            ) && (e matches Expr::Name { id, range } && id@ == old(self).source@.subrange(
                old(self).tokens@[old(self).pos + 1].range.start as int,
                old(self).tokens@[old(self).pos + 1].range.end as int,
            ) && range == old(self).tokens@[old(self).pos + 1].range)),
            (old(self).cur().kind == TokenKind::At && old(self).spec_peek() == TokenKind::Lpar
                && old(self).pos + 3 < old(self).tokens@.len() && old(self).tokens@[old(self).pos
                + 2].kind == TokenKind::Name && old(self).tokens@[old(self).pos + 3].kind
                == TokenKind::Rpar) ==> (r matches Ok(e) && final(self).advanced(*old(self), 4)
                && (e matches Expr::Call { arguments, .. } && arguments.args@.len() == 1 && (
                arguments.args@[0] matches Expr::Name { id, range } && id@
                    == old(self).source@.subrange(
                    old(self).tokens@[old(self).pos + 2].range.start as int,
                    old(self).tokens@[old(self).pos + 2].range.end as int,
                ) && range == old(self).tokens@[old(self).pos + 2].range))),
            (old(self).cur().kind == TokenKind::At && old(self).spec_peek() == TokenKind::Lpar)
                ==> (r matches Ok(e) ==> (e matches Expr::Call { func, arguments, range }
                && is_ox_attr(
                *func,
                AttrName::ListOfStrsOrCallables,
                final(self).cur().range,
                final(self).cur().range,
            ) && arguments.keywords@.len() == 0 && arguments.args@.len() == 1 && range
                == arguments.args@[0].spec_range() && arguments.range == range)),
            (old(self).cur().kind == TokenKind::At && old(self).spec_peek() == TokenKind::Name
                && old(self).pos + 2 < old(self).tokens@.len() && old(self).tokens@[old(self).pos
                + 2].kind == TokenKind::String) ==> (r matches Ok(e) && final(self).advanced(
                *old(self),
                3,
            ) && is_pattern_decoration(
                e,
                old(self).source@,
                old(self).tokens@[old(self).pos + 1],
                old(self).tokens@[old(self).pos + 2],
                old(self).tokens@[old(self).pos + 3],
            )),
        decreases self.tokens@.len() - self.pos, 6int,
    {
        if self.at(TokenKind::Lbrace) {
            proof {
                assert(crate::cursor::adjacent_ordered(self.tokens@, self.pos as int));
            }
            self.bump_any();
            let expr = self.parse_slice(TokenKind::Rbrace)?;
            let ghost mid = *self;
            match self.expect(TokenKind::Rbrace) {
                Ok(_) => {},
                Err(e) => {
                    return Err(ParseFailure::Syntax(e));
                },
            }
            proof {
                crate::cursor::lemma_token_positions_ordered(
                    *self,
                    mid.pos as int,
                    self.pos as int,
                );
            }
            return Ok(expr);
        }
        proof {
            assert(crate::cursor::adjacent_ordered(self.tokens@, self.pos as int));
        }
        self.bump_any();  // skip the `@`
        if self.at(TokenKind::Lpar) {
            let expr = self.parse_atom()?;
            let range = expr.range();
            let func = self.xonsh_attr(AttrName::ListOfStrsOrCallables, None);
            Ok(func.call0(vec![expr], range))
        } else if self.at(TokenKind::Name) && self.peek() == TokenKind::String {
            let start = self.node_start();
            let name = match self.parse_name() {
                Ok(e) => e,
                Err(_) => vstd::pervasive::unreached(),
            };
            let string = match self.parse_strings() {
                Ok(e) => e,
                Err(_) => vstd::pervasive::unreached(),
            };
            let range = self.node_range(start);
            let pattern = self.xonsh_attr(AttrName::Pattern, None);
            let call = pattern.call0(vec![string], range).attr(AttrName::Invoke, range).call0(
                vec![name],
                range,
            );
            let star_range = self.node_range(self.node_start());
            Ok(call.star(star_range))
        } else {
            Err(ParseFailure::Syntax(ParseErrorType::ExpectedExpression))
        }
    }

    /// One keyword argument folding all of one kind's redirection pairs into
    /// a dictionary whose range spans exactly the first pair's start to the
    /// last pair's end.
    fn redirect_keyword(&self, name: AttrName, items: Vec<DictItem>, group_start: usize) -> (kw:
        Keyword)
        requires
            self.wf(),
            items@.len() >= 1,
            dict_items_ordered(items@),
            dict_items_wf(items@),
            name == AttrName::Writes || name == AttrName::Appends || name == AttrName::Reads,
        ensures
            is_redirect_keyword(kw),
            kw.value matches Expr::Dict { items: d, .. } && d == items,
            kw.arg == Some(Identifier { id: name, range: self.cur().range }),
            kw.range == self.spec_node_range(group_start),
    {
        let first = items[0].range();
        let last = items[items.len() - 1].range();
        proof {
            if items@.len() >= 2 {
                assert(items@[0].spec_range().end <= items@[items@.len() - 1].spec_range().start);
            }
        }
        let range = TextRange { start: first.start, end: last.end };
        let value = Expr::Dict { items, range };
        Keyword { arg: Some(self.to_identifier(name)), value, range: self.node_range(group_start) }
    }

    /// Parses one command group up to (and through) the closing delimiter or
    /// up to a pipe: positional arguments, redirections accumulated per kind
    /// in arrival order, and the background marker. Every produced keyword
    /// argument is either `bg=True` or a source-ordered redirection
    /// dictionary spanning exactly its pairs.
    #[verifier::rlimit(80)]
    pub fn parse_cmd_group(&mut self, closing: TokenKind) -> (r: Result<Arguments, ParseFailure>)
        requires
            old(self).wf(),
            closing != TokenKind::EndOfFile,
            !closing.spec_is_proc_op(),
        ensures
            final(self).stepped(*old(self)),
            r matches Ok(args) ==> group_keywords_ok(args),
            r matches Ok(args) ==> args.range == final(self).spec_node_range(
                old(self).cur().range.start,
            ),
            r matches Ok(_) ==> (final(self).cur().kind == TokenKind::Vbar || (final(self).pos >= 1
                && final(self).tokens@[final(self).pos - 1].kind == closing)),
            r matches Ok(args) ==> ((exists|i: int|
                0 <= i < args.keywords@.len() && is_bg_keyword(#[trigger] args.keywords@[i]))
                ==> (final(self).pos >= 2 && final(self).tokens@[final(self).pos - 1].kind
                == closing && final(self).tokens@[final(self).pos - 2].kind == TokenKind::Amper)),
            old(self).cur().kind == closing ==> (r matches Ok(args) && final(self).advanced(
                *old(self),
                1,
            ) && args.args@.len() == 0 && args.keywords@.len() == 0),
            old(self).cur().kind == TokenKind::Vbar ==> (r matches Ok(args) && *final(self)
                == *old(self) && args.args@.len() == 0 && args.keywords@.len() == 0),
            spec_classify(*old(self), closing) == GroupStep::Background ==> (r matches Ok(args)
                && final(self).advanced(*old(self), 2) && args.args@.len() == 0
                && args.keywords@.len() == 1 && args.keywords@[0] == (Keyword {
                arg: Some(Identifier { id: AttrName::Bg, range: old(self).cur().range }),
                value: Expr::BooleanLiteral {
                    value: true,
                    range: TextRange {
                        start: old(self).cur().range.start,
                        end: old(self).cur().range.start,
                    },
                },
                range: old(self).cur().range,
            })),
            r matches Ok(args) ==> (forall|i: int|
                0 <= i < args.args@.len() ==> expr_spanned(
                    #[trigger] args.args@[i],
                    old(self).cur().range.start as int,
                    final(self).cur().range.start as int,
                )),
            r matches Ok(args) ==> (forall|i: int, j: int|
                0 <= i < j < args.args@.len() ==> (#[trigger] args.args@[i]).spec_range().end
                    <= (#[trigger] args.args@[j]).spec_range().start),
            r matches Ok(args) ==> (forall|i: int, j: int|
                0 <= i < j < args.keywords@.len() ==> kw_rank(#[trigger] args.keywords@[i])
                    < kw_rank(#[trigger] args.keywords@[j])),
            ((spec_classify(*old(self), closing) == GroupStep::RedirectPlain || spec_classify(
                *old(self),
                closing,
            ) == GroupStep::RedirectWithSrc) && r is Ok) ==> (r matches Ok(args) && exists|i: int|
                0 <= i < args.keywords@.len() && is_redirect_keyword(#[trigger] args.keywords@[i])),
            forall|n: int|
                #[trigger] words_redirect_group(*old(self), closing, old(self).pos as int, n)
                    ==> (r matches Ok(args) && ({
                    let toks = old(self).tokens@;
                    let j = word_run_pos(toks, closing, old(self).pos as int, n);
                    let we = word_end(toks, j + 2, closing, 0);
                    let typ = spec_redirect_type(toks[j].kind);
                    let destend = toks[we - 1].range.end;
                    &&& args.args@.len() == n
                    &&& (forall|m: int|
                        0 <= m < n ==> word_lit_at(
                            #[trigger] args.args@[m],
                            *old(self),
                            closing,
                            word_run_pos(toks, closing, old(self).pos as int, m),
                        ))
                    &&& final(self).pos == we + 1
                    &&& args.keywords@.len() == 1
                    &&& (args.keywords@[0].arg matches Some(id) && id.id == (match typ {
                        RedirectType::Write => AttrName::Writes,
                        RedirectType::Append => AttrName::Appends,
                        RedirectType::Read => AttrName::Reads,
                    }))
                    &&& (args.keywords@[0].value matches Expr::Dict { items, range }
                        && items@.len() == 1 && range == (TextRange {
                        start: toks[j].range.start,
                        end: destend,
                    }) && ({
                        let item = items@[0];
                        &&& item.key matches Some(kk) && is_string_lit(
                            kk,
                            Seq::<u8>::empty(),
                            StringFlavor::Plain,
                            toks[j].range,
                        )
                        &&& is_string_lit(
                            item.value,
                            old(self).source@.subrange(
                                toks[j + 1].range.start as int,
                                destend as int,
                            ),
                            StringFlavor::Plain,
                            TextRange { start: toks[j + 1].range.start, end: destend },
                        )
                    }))
                })),
            forall|n: int|
                #[trigger] words_group(*old(self), closing, old(self).pos as int, n) ==> (r matches
                    Ok(args) && ({
                    let toks = old(self).tokens@;
                    let jn = word_run_pos(toks, closing, old(self).pos as int, n);
                    let cls = spec_classify(at_pos(*old(self), jn), closing);
                    &&& args.args@.len() == n
                    &&& (forall|m: int|
                        0 <= m < n ==> word_lit_at(
                            #[trigger] args.args@[m],
                            *old(self),
                            closing,
                            word_run_pos(toks, closing, old(self).pos as int, m),
                        ))
                    &&& (cls == GroupStep::Close ==> args.keywords@.len() == 0 && final(self).pos
                        == jn + 1)
                    &&& (cls == GroupStep::Pipe ==> args.keywords@.len() == 0 && final(self).pos
                        == jn)
                    &&& (cls == GroupStep::Background ==> args.keywords@.len() == 1
                        && is_bg_keyword(args.keywords@[0]) && final(self).pos == jn + 2)
                })),
        decreases self.tokens@.len() - self.pos, 8int,
    {
        let start = self.node_start();
        let mut cmds: Vec<Expr> = Vec::new();
        let mut keywords: Vec<Keyword> = Vec::new();
        let mut redirects = RedirectMap::new();
        let mut progress = ParserProgress::new();

        loop
            invariant_except_break
                keywords@.len() == 0,
                forall|n: int|
                    #[trigger] words_redirect_group(*old(self), closing, old(self).pos as int, n)
                        ==> ({
                        let toks = old(self).tokens@;
                        let k = cmds@.len() as int;
                        let j = word_run_pos(toks, closing, old(self).pos as int, n);
                        let we = word_end(toks, j + 2, closing, 0);
                        let typ = spec_redirect_type(toks[j].kind);
                        &&& k <= n
                        &&& (forall|m: int|
                            0 <= m < k ==> word_lit_at(
                                #[trigger] cmds@[m],
                                *old(self),
                                closing,
                                word_run_pos(toks, closing, old(self).pos as int, m),
                            ))
                        &&& (({
                        &&& self.pos == word_run_pos(toks, closing, old(self).pos as int, k)
                        &&& (forall|t: RedirectType| (#[trigger] redirects.entry(t)).len() == 0)
                        &&& (k == 0 ==> progress.last is None)
                        &&& (k >= 1 ==> (progress.last matches Some(q) && q as int == word_run_pos(
                            toks,
                            closing,
                            old(self).pos as int,
                            k - 1,
                        )))
                    }) || ({
                        &&& k == n
                        &&& self.pos == we
                        &&& redirects.entry(typ).len() == 1
                        &&& (forall|t: RedirectType|
                            t != typ ==> (#[trigger] redirects.entry(t)).len() == 0)
                        &&& ({
                            let item = redirects.entry(typ)[0];
                            &&& item.key matches Some(kk) && is_string_lit(
                                kk,
                                Seq::<u8>::empty(),
                                StringFlavor::Plain,
                                toks[j].range,
                            )
                            &&& is_string_lit(
                                item.value,
                                old(self).source@.subrange(
                                    toks[j + 1].range.start as int,
                                    toks[we - 1].range.end as int,
                                ),
                                StringFlavor::Plain,
                                TextRange {
                                    start: toks[j + 1].range.start,
                                    end: toks[we - 1].range.end,
                                },
                            )
                        })
                    }))
                    }),
                forall|n: int|
                    #[trigger] words_group(*old(self), closing, old(self).pos as int, n) ==> ({
                        let toks = old(self).tokens@;
                        let k = cmds@.len() as int;
                        &&& k <= n
                        &&& self.pos == word_run_pos(toks, closing, old(self).pos as int, k)
                        &&& (forall|m: int|
                            0 <= m < k ==> word_lit_at(
                                #[trigger] cmds@[m],
                                *old(self),
                                closing,
                                word_run_pos(toks, closing, old(self).pos as int, m),
                            ))
                        &&& (forall|t: RedirectType| (#[trigger] redirects.entry(t)).len() == 0)
                        &&& (k == 0 ==> progress.last is None)
                        &&& (k >= 1 ==> (progress.last matches Some(q) && q as int == word_run_pos(
                            toks,
                            closing,
                            old(self).pos as int,
                            k - 1,
                        )))
                    }),
                old(self).cur().kind == closing ==> (*self == *old(self) && cmds@.len() == 0 && (
                forall|t: RedirectType| (#[trigger] redirects.entry(t)).len() == 0)),
                old(self).cur().kind == TokenKind::Vbar ==> (*self == *old(self) && cmds@.len()
                    == 0 && (forall|t: RedirectType| (#[trigger] redirects.entry(t)).len() == 0)),
                spec_classify(*old(self), closing) == GroupStep::Background ==> (*self == *old(
                    self,
                ) && cmds@.len() == 0 && (forall|t: RedirectType|
                    (#[trigger] redirects.entry(t)).len() == 0)),
            invariant
                (spec_classify(*old(self), closing) == GroupStep::RedirectPlain || spec_classify(
                    *old(self),
                    closing,
                ) == GroupStep::RedirectWithSrc) ==> (*self == *old(self) || exists|t: RedirectType|
                    (#[trigger] redirects.entry(t)).len() > 0),
                forall|i: int|
                    0 <= i < cmds@.len() ==> expr_spanned(
                        #[trigger] cmds@[i],
                        old(self).cur().range.start as int,
                        self.cur().range.start as int,
                    ),
                forall|i: int, j: int|
                    0 <= i < j < cmds@.len() ==> (#[trigger] cmds@[i]).spec_range().end
                        <= (#[trigger] cmds@[j]).spec_range().start,
                self.wf(),
                self.same_stream(*old(self)),
                old(self).pos <= self.pos,
                old(self).prev_end <= self.prev_end,
                closing != TokenKind::EndOfFile,
                !closing.spec_is_proc_op(),
                forall|t: RedirectType| dict_items_ordered(#[trigger] redirects.entry(t)),
                forall|t: RedirectType| dict_items_wf(#[trigger] redirects.entry(t)),
                forall|t: RedirectType|
                    (#[trigger] redirects.entry(t)).len() > 0 ==> redirects.entry(
                        t,
                    ).last().spec_range().end <= (if self.cur().kind == TokenKind::EndOfFile {
                        self.source@.len() as int
                    } else {
                        self.prev_end as int
                    }),
            ensures
                self.wf(),
                self.same_stream(*old(self)),
                old(self).pos <= self.pos,
                old(self).prev_end <= self.prev_end,
                forall|t: RedirectType| dict_items_ordered(#[trigger] redirects.entry(t)),
                forall|t: RedirectType| dict_items_wf(#[trigger] redirects.entry(t)),
                keywords@.len() <= 1,
                keywords@.len() == 1 ==> (is_bg_keyword(keywords@[0]) && self.pos >= 2
                    && self.tokens@[self.pos - 1].kind == closing && self.tokens@[self.pos
                    - 2].kind == TokenKind::Amper),
                keywords@.len() == 0 ==> (self.cur().kind == TokenKind::Vbar || (self.pos >= 1
                    && self.tokens@[self.pos - 1].kind == closing)),
                old(self).cur().kind == closing ==> (self.advanced(*old(self), 1) && cmds@.len()
                    == 0 && keywords@.len() == 0 && (forall|t: RedirectType|
                    (#[trigger] redirects.entry(t)).len() == 0)),
                old(self).cur().kind == TokenKind::Vbar ==> (*self == *old(self) && cmds@.len()
                    == 0 && keywords@.len() == 0 && (forall|t: RedirectType|
                    (#[trigger] redirects.entry(t)).len() == 0)),
                spec_classify(*old(self), closing) == GroupStep::Background ==> (self.advanced(
                    *old(self),
                    2,
                ) && cmds@.len() == 0 && keywords@.len() == 1 && keywords@[0] == (Keyword {
                    arg: Some(Identifier { id: AttrName::Bg, range: old(self).cur().range }),
                    value: Expr::BooleanLiteral {
                        value: true,
                        range: TextRange {
                            start: old(self).cur().range.start,
                            end: old(self).cur().range.start,
                        },
                    },
                    range: old(self).cur().range,
                }) && (forall|t: RedirectType| (#[trigger] redirects.entry(t)).len() == 0)),
                (spec_classify(*old(self), closing) == GroupStep::RedirectPlain || spec_classify(
                    *old(self),
                    closing,
                ) == GroupStep::RedirectWithSrc) ==> (exists|t: RedirectType|
                    (#[trigger] redirects.entry(t)).len() > 0),
                forall|n: int|
                    #[trigger] words_redirect_group(*old(self), closing, old(self).pos as int, n)
                        ==> ({
                        let toks = old(self).tokens@;
                        let j = word_run_pos(toks, closing, old(self).pos as int, n);
                        let we = word_end(toks, j + 2, closing, 0);
                        let typ = spec_redirect_type(toks[j].kind);
                        &&& cmds@.len() == n
                        &&& (forall|m: int|
                            0 <= m < n ==> word_lit_at(
                                #[trigger] cmds@[m],
                                *old(self),
                                closing,
                                word_run_pos(toks, closing, old(self).pos as int, m),
                            ))
                        &&& keywords@.len() == 0
                        &&& self.pos == we + 1
                        &&& redirects.entry(typ).len() == 1
                        &&& (forall|t: RedirectType|
                            t != typ ==> (#[trigger] redirects.entry(t)).len() == 0)
                        &&& ({
                            let item = redirects.entry(typ)[0];
                            &&& item.key matches Some(kk) && is_string_lit(
                                kk,
                                Seq::<u8>::empty(),
                                StringFlavor::Plain,
                                toks[j].range,
                            )
                            &&& is_string_lit(
                                item.value,
                                old(self).source@.subrange(
                                    toks[j + 1].range.start as int,
                                    toks[we - 1].range.end as int,
                                ),
                                StringFlavor::Plain,
                                TextRange {
                                    start: toks[j + 1].range.start,
                                    end: toks[we - 1].range.end,
                                },
                            )
                        })
                    }),
                forall|n: int|
                    #[trigger] words_group(*old(self), closing, old(self).pos as int, n) ==> ({
                        let toks = old(self).tokens@;
                        let jn = word_run_pos(toks, closing, old(self).pos as int, n);
                        let cls = spec_classify(at_pos(*old(self), jn), closing);
                        &&& cmds@.len() == n
                        &&& (forall|m: int|
                            0 <= m < n ==> word_lit_at(
                                #[trigger] cmds@[m],
                                *old(self),
                                closing,
                                word_run_pos(toks, closing, old(self).pos as int, m),
                            ))
                        &&& (forall|t: RedirectType| (#[trigger] redirects.entry(t)).len() == 0)
                        &&& (cls == GroupStep::Close ==> keywords@.len() == 0 && self.pos == jn
                            + 1)
                        &&& (cls == GroupStep::Pipe ==> keywords@.len() == 0 && self.pos == jn)
                        &&& (cls == GroupStep::Background ==> keywords@.len() == 1
                            && is_bg_keyword(keywords@[0]) && self.pos == jn + 2)
                    }),
            decreases
                self.tokens@.len() - self.pos,
                (if progress.last == Some(self.pos) {
                    0int
                } else {
                    1int
                }),
        {
            let ghost it = *self;
            let ghost cmds0 = cmds@;
            proof {
                assert forall|n: int|
                    #[trigger] words_group(*old(self), closing, old(self).pos as int, n) implies ({
                    let k = cmds0.len() as int;
                    &&& k <= n
                    &&& words_group(*old(self), closing, it.pos as int, n - k)
                    &&& spec_classify(it, closing) == spec_classify(
                        at_pos(*old(self), it.pos as int),
                        closing,
                    )
                }) by {
                    lemma_words_group_tail(
                        *old(self),
                        closing,
                        old(self).pos as int,
                        n,
                        cmds0.len() as int,
                    );
                }
                assert forall|n: int|
                    #[trigger] words_redirect_group(
                        *old(self),
                        closing,
                        old(self).pos as int,
                        n,
                    ) && cmds0.len() <= n && it.pos == word_run_pos(
                        old(self).tokens@,
                        closing,
                        old(self).pos as int,
                        cmds0.len() as int,
                    ) implies ({
                    let k = cmds0.len() as int;
                    &&& words_prefix(*old(self), closing, it.pos as int, n - k)
                    &&& spec_classify(it, closing) == spec_classify(
                        at_pos(*old(self), it.pos as int),
                        closing,
                    )
                }) by {
                    lemma_words_prefix_tail(
                        *old(self),
                        closing,
                        old(self).pos as int,
                        n,
                        cmds0.len() as int,
                    );
                }
                assert(spec_classify(it, closing) == spec_classify(
                    at_pos(*old(self), it.pos as int),
                    closing,
                ));
            }
            let step = self.classify(closing);
            match step {
                GroupStep::Close => {
                    self.bump_any();
                    proof {
                        crate::cursor::lemma_token_positions_ordered(
                            *self,
                            it.pos as int,
                            self.pos as int,
                        );
                        let toks = old(self).tokens@;
                        assert forall|n: int|
                            #[trigger] words_redirect_group(
                                *old(self),
                                closing,
                                old(self).pos as int,
                                n,
                            ) implies (cmds0.len() == n && it.pos == word_end(
                            toks,
                            word_run_pos(toks, closing, old(self).pos as int, n) + 2,
                            closing,
                            0,
                        ) && self.pos == it.pos + 1) by {
                            let k0 = cmds0.len() as int;
                            if k0 < n {
                                lemma_words_prefix_tail(
                                    *old(self),
                                    closing,
                                    old(self).pos as int,
                                    n,
                                    k0,
                                );
                            }
                        }
                    }
                    break ;
                },
                GroupStep::Pipe => {
                    break ;
                },
                GroupStep::RedirectWithSrc => {
                    let k = self.current_token_kind();
                    self.parse_redirection_with_src(closing, &mut redirects, Some(k));
                    proof {
                        crate::cursor::lemma_token_positions_ordered(
                            *self,
                            it.pos as int,
                            self.pos as int,
                        );
                        assert forall|n: int|
                            #[trigger] words_redirect_group(
                                *old(self),
                                closing,
                                old(self).pos as int,
                                n,
                            ) implies false by {
                            let k0 = cmds0.len() as int;
                            if k0 < n {
                                lemma_words_prefix_tail(
                                    *old(self),
                                    closing,
                                    old(self).pos as int,
                                    n,
                                    k0,
                                );
                            }
                        }
                    }
                },
                GroupStep::RedirectPlain => {
                    self.parse_redirection_with_src(closing, &mut redirects, None);
                    proof {
                        crate::cursor::lemma_token_positions_ordered(
                            *self,
                            it.pos as int,
                            self.pos as int,
                        );
                        let toks = old(self).tokens@;
                        assert forall|n: int|
                            #[trigger] words_redirect_group(
                                *old(self),
                                closing,
                                old(self).pos as int,
                                n,
                            ) implies (cmds0.len() == n && it.pos == word_run_pos(
                            toks,
                            closing,
                            old(self).pos as int,
                            n,
                        ) && self.pos == word_end(toks, it.pos + 2, closing, 0)) by {
                            let k0 = cmds0.len() as int;
                            if k0 < n {
                                lemma_words_prefix_tail(
                                    *old(self),
                                    closing,
                                    old(self).pos as int,
                                    n,
                                    k0,
                                );
                            }
                        }
                    }
                },
                GroupStep::Background => {
                    let kw_range = self.current_token_range();
                    let value = self.literal_true();
                    keywords.push(Keyword {
                        arg: Some(self.to_identifier(AttrName::Bg)),
                        value,
                        range: kw_range,
                    });
                    self.bump_any();  // skip the `&`
                    self.bump(closing);  // skip the closing token
                    proof {
                        crate::cursor::lemma_token_positions_ordered(
                            *self,
                            it.pos as int,
                            self.pos as int,
                        );
                    }
                    break ;
                },
                GroupStep::Argument => {
                    proof {
                        let toks = old(self).tokens@;
                        assert forall|n: int|
                            #[trigger] words_group(
                                *old(self),
                                closing,
                                old(self).pos as int,
                                n,
                            ) implies progress.last != Some(it.pos) by {
                            let k0 = cmds0.len() as int;
                            if k0 >= 1 {
                                lemma_word_run_step(toks, closing, old(self).pos as int, k0);
                                lemma_word_end_ge(
                                    toks,
                                    word_run_pos(toks, closing, old(self).pos as int, k0 - 1) + 1,
                                    closing,
                                    0,
                                );
                            }
                        }
                        assert forall|n: int|
                            #[trigger] words_redirect_group(
                                *old(self),
                                closing,
                                old(self).pos as int,
                                n,
                            ) implies (cmds0.len() < n && progress.last != Some(it.pos)
                            && starts_word(*old(self), closing, it.pos as int)) by {
                            let k0 = cmds0.len() as int;
                            if k0 < n {
                                lemma_words_prefix_tail(
                                    *old(self),
                                    closing,
                                    old(self).pos as int,
                                    n,
                                    k0,
                                );
                            }
                            if k0 >= 1 {
                                lemma_word_run_step(toks, closing, old(self).pos as int, k0);
                                lemma_word_end_ge(
                                    toks,
                                    word_run_pos(toks, closing, old(self).pos as int, k0 - 1) + 1,
                                    closing,
                                    0,
                                );
                            }
                        }
                    }
                    let e = self.parse_proc_arg(&mut progress, closing)?;
                    proof {
                        crate::cursor::lemma_token_positions_ordered(
                            *self,
                            old(self).pos as int,
                            it.pos as int,
                        );
                        crate::cursor::lemma_token_positions_ordered(
                            *self,
                            it.pos as int,
                            self.pos as int,
                        );
                    }
                    cmds.push(e);
                    proof {
                        let toks = old(self).tokens@;
                        assert forall|n: int|
                            #[trigger] words_group(
                                *old(self),
                                closing,
                                old(self).pos as int,
                                n,
                            ) implies (cmds0.len() < n && self.pos == word_run_pos(
                            toks,
                            closing,
                            old(self).pos as int,
                            cmds0.len() as int + 1,
                        ) && word_lit_at(
                            e,
                            *old(self),
                            closing,
                            word_run_pos(toks, closing, old(self).pos as int, cmds0.len() as int),
                        )) by {
                            let k0 = cmds0.len() as int;
                            lemma_word_run_step(toks, closing, old(self).pos as int, k0 + 1);
                            if k0 >= 1 {
                                lemma_word_run_step(toks, closing, old(self).pos as int, k0);
                                lemma_word_end_ge(
                                    toks,
                                    word_run_pos(toks, closing, old(self).pos as int, k0 - 1) + 1,
                                    closing,
                                    0,
                                );
                            }
                        }
                        assert forall|n: int|
                            #[trigger] words_redirect_group(
                                *old(self),
                                closing,
                                old(self).pos as int,
                                n,
                            ) implies (cmds0.len() < n && self.pos == word_run_pos(
                            toks,
                            closing,
                            old(self).pos as int,
                            cmds0.len() as int + 1,
                        ) && word_lit_at(
                            e,
                            *old(self),
                            closing,
                            word_run_pos(toks, closing, old(self).pos as int, cmds0.len() as int),
                        )) by {
                            let k0 = cmds0.len() as int;
                            lemma_word_run_step(toks, closing, old(self).pos as int, k0 + 1);
                            if k0 < n {
                                lemma_words_prefix_tail(
                                    *old(self),
                                    closing,
                                    old(self).pos as int,
                                    n,
                                    k0,
                                );
                            }
                            if k0 >= 1 {
                                lemma_word_run_step(toks, closing, old(self).pos as int, k0);
                                lemma_word_end_ge(
                                    toks,
                                    word_run_pos(toks, closing, old(self).pos as int, k0 - 1) + 1,
                                    closing,
                                    0,
                                );
                            }
                        }
                    }
                },
            }
        }

        proof {
            assert(dict_items_ordered(redirects.entry(RedirectType::Write)));
            assert(dict_items_ordered(redirects.entry(RedirectType::Append)));
            assert(dict_items_ordered(redirects.entry(RedirectType::Read)));
            assert(dict_items_wf(redirects.entry(RedirectType::Write)));
            assert(dict_items_wf(redirects.entry(RedirectType::Append)));
            assert(dict_items_wf(redirects.entry(RedirectType::Read)));
        }
        let ghost rm = redirects;
        let RedirectMap { writes, appends, reads } = redirects;
        proof {
            assert(forall|i: int|
                0 <= i < keywords@.len() ==> kw_rank(#[trigger] keywords@[i]) < 1);
        }
        let ghost kw_before_w = keywords@.len();
        if writes.len() > 0 {
            keywords.push(self.redirect_keyword(AttrName::Writes, writes, start));
        }
        proof {
            assert(forall|i: int|
                0 <= i < keywords@.len() ==> kw_rank(#[trigger] keywords@[i]) < 2);
        }
        let ghost kw_before_a = keywords@.len();
        if appends.len() > 0 {
            keywords.push(self.redirect_keyword(AttrName::Appends, appends, start));
        }
        proof {
            assert(forall|i: int|
                0 <= i < keywords@.len() ==> kw_rank(#[trigger] keywords@[i]) < 3);
        }
        let ghost kw_before_r = keywords@.len();
        if reads.len() > 0 {
            keywords.push(self.redirect_keyword(AttrName::Reads, reads, start));
        }
        proof {
            if spec_classify(*old(self), closing) == GroupStep::RedirectPlain || spec_classify(
                *old(self),
                closing,
            ) == GroupStep::RedirectWithSrc {
                let t = choose|t: RedirectType| rm.entry(t).len() > 0;
                match t {
                    RedirectType::Write => {
                        assert(is_redirect_keyword(keywords@[kw_before_w as int]));
                    },
                    RedirectType::Append => {
                        assert(is_redirect_keyword(keywords@[kw_before_a as int]));
                    },
                    RedirectType::Read => {
                        assert(is_redirect_keyword(keywords@[kw_before_r as int]));
                    },
                }
            }
        }

        Ok(Arguments { range: self.node_range(start), args: cmds, keywords })
    }

    /// Parses a whole subprocess expression: a command group wrapped in
    /// `ox.cmd(...)`, one `.pipe(...)` call per `|`-joined further group, and
    /// a final argumentless `.<method>()` call naming the capture form.
    pub fn parse_subprocs(&mut self, method: AttrName, closing: TokenKind) -> (r: Result<
        Expr,
        ParseFailure,
    >)
        requires
            old(self).wf(),
            closing != TokenKind::EndOfFile,
            !closing.spec_is_proc_op(),
        ensures
            final(self).stepped(*old(self)),
            r matches Ok(e) ==> is_subproc_expr(e, method),
            r matches Ok(_) ==> final(self).cur().kind != TokenKind::Vbar,
            r matches Ok(e) ==> e.spec_range() == final(self).spec_node_range(
                old(self).cur().range.start,
            ),
            old(self).cur().kind == closing && old(self).tokens@[old(self).pos + 1].kind
                != TokenKind::Vbar ==> (r is Ok && final(self).advanced(*old(self), 1)),
            forall|n0: int, n1: int|
                #[trigger] two_words_groups_pipe(*old(self), closing, old(self).pos as int, n0, n1)
                    ==> (r matches Ok(e) && ({
                    let toks = old(self).tokens@;
                    let j0 = word_run_pos(toks, closing, old(self).pos as int, n0);
                    let g1 = j0 + 1;
                    let j1 = word_run_pos(toks, closing, g1, n1);
                    let cls1 = spec_classify(at_pos(*old(self), j1), closing);
                    &&& final(self).pos == (if cls1 == GroupStep::Background {
                        j1 + 2
                    } else {
                        j1 + 1
                    })
                    &&& (e matches Expr::Call { func, arguments, .. } && arguments.args@.len()
                        == 0 && arguments.keywords@.len() == 0 && (*func matches Expr::Attribute {
                        value: pc,
                        attr,
                        ..
                    } && attr == method && (*pc matches Expr::Call { func: pf, arguments: ca1, .. }
                        && (*pf matches Expr::Attribute { value: cc, attr: pa, .. } && pa
                        == AttrName::Pipe && (*cc matches Expr::Call { arguments: ca0, .. }
                        && ca0.args@.len() == n0 && (forall|m: int|
                        0 <= m < n0 ==> word_lit_at(
                            #[trigger] ca0.args@[m],
                            *old(self),
                            closing,
                            word_run_pos(toks, closing, old(self).pos as int, m),
                        )) && ca0.keywords@.len() == 0)) && ca1.args@.len() == n1 && (
                    forall|m: int|
                        0 <= m < n1 ==> word_lit_at(
                            #[trigger] ca1.args@[m],
                            *old(self),
                            closing,
                            word_run_pos(toks, closing, g1, m),
                        )) && (cls1 == GroupStep::Close ==> ca1.keywords@.len() == 0) && (cls1
                        == GroupStep::Background ==> ca1.keywords@.len() == 1 && is_bg_keyword(
                        ca1.keywords@[0],
                    )))))
                })),
            forall|n: int|
                ({
                    let toks = old(self).tokens@;
                    let jn = word_run_pos(toks, closing, old(self).pos as int, n);
                    #[trigger] words_group(*old(self), closing, old(self).pos as int, n)
                        && spec_classify(at_pos(*old(self), jn), closing) == GroupStep::Close
                        && toks[jn + 1].kind != TokenKind::Vbar
                }) ==> (r matches Ok(e) && ({
                    let toks = old(self).tokens@;
                    let jn = word_run_pos(toks, closing, old(self).pos as int, n);
                    let span = TextRange {
                        start: old(self).cur().range.start,
                        end: toks[jn].range.end,
                    };
                    &&& final(self).pos == jn + 1
                    &&& (e matches Expr::Call { func, arguments, range } && arguments.args@.len()
                        == 0 && arguments.keywords@.len() == 0 && range == span && (*func matches
                        Expr::Attribute { value, attr, range: ar } && attr == method && ar == span
                        && (*value matches Expr::Call { func: cf, arguments: ca, range: cr }
                        && is_ox_attr(
                        *cf,
                        AttrName::Cmd,
                        old(self).cur().range,
                        old(self).cur().range,
                    ) && cr == span && ca.range == span && ca.args@.len() == n && (forall|m: int|
                        0 <= m < n ==> word_lit_at(
                            #[trigger] ca.args@[m],
                            *old(self),
                            closing,
                            word_run_pos(toks, closing, old(self).pos as int, m),
                        )) && ca.keywords@.len() == 0)))
                })),
        decreases self.tokens@.len() - self.pos, 9int,
    {
        let start = self.node_start();
        let func = self.xonsh_attr(AttrName::Cmd, None);
        let group = self.parse_cmd_group(closing)?;
        let range = self.node_range(start);
        let mut cmd = func.call(group, range);
        proof {
            let toks = old(self).tokens@;
            assert forall|n: int|
                ({
                    let jn = word_run_pos(toks, closing, old(self).pos as int, n);
                    #[trigger] words_group(*old(self), closing, old(self).pos as int, n)
                        && spec_classify(at_pos(*old(self), jn), closing) == GroupStep::Close
                }) implies ({
                let jn = word_run_pos(toks, closing, old(self).pos as int, n);
                &&& self.pos == jn + 1
                &&& old(self).pos <= jn < toks.len() - 1
                &&& toks[jn].kind == closing
                &&& toks[jn].range.start < toks[jn].range.end
                &&& old(self).cur().range.start < toks[jn].range.end
            }) by {
                let jn = word_run_pos(toks, closing, old(self).pos as int, n);
                lemma_words_group_tail(*old(self), closing, old(self).pos as int, n, n);
                lemma_word_run_ge(toks, closing, old(self).pos as int, n);
                crate::cursor::lemma_token_positions_ordered(*self, old(self).pos as int, jn);
            }
            assert forall|n0: int, n1: int|
                #[trigger] two_words_groups_pipe(
                    *old(self),
                    closing,
                    old(self).pos as int,
                    n0,
                    n1,
                ) implies (self.pos == word_run_pos(toks, closing, old(self).pos as int, n0)
                && (cmd matches Expr::Call { arguments: ca0, .. } && ca0.args@.len() == n0 && (
            forall|m: int|
                0 <= m < n0 ==> word_lit_at(
                    #[trigger] ca0.args@[m],
                    *old(self),
                    closing,
                    word_run_pos(toks, closing, old(self).pos as int, m),
                )) && ca0.keywords@.len() == 0)) by {
            }
        }

        while self.at(TokenKind::Vbar)
            invariant
                self.wf(),
                self.same_stream(*old(self)),
                old(self).pos <= self.pos,
                old(self).prev_end <= self.prev_end,
                closing != TokenKind::EndOfFile,
                !closing.spec_is_proc_op(),
                is_cmd_chain(cmd),
                old(self).cur().kind == closing && old(self).tokens@[old(self).pos + 1].kind
                    != TokenKind::Vbar ==> self.advanced(*old(self), 1),
                forall|n0: int, n1: int|
                    #[trigger] two_words_groups_pipe(
                        *old(self),
                        closing,
                        old(self).pos as int,
                        n0,
                        n1,
                    ) ==> ({
                        let toks = old(self).tokens@;
                        let j0 = word_run_pos(toks, closing, old(self).pos as int, n0);
                        let g1 = j0 + 1;
                        let j1 = word_run_pos(toks, closing, g1, n1);
                        let cls1 = spec_classify(at_pos(*old(self), j1), closing);
                        let end = if cls1 == GroupStep::Background {
                            j1 + 2
                        } else {
                            j1 + 1
                        };
                        ||| (self.pos == j0 && (cmd matches Expr::Call { arguments: ca0, .. }
                            && ca0.args@.len() == n0 && (forall|m: int|
                            0 <= m < n0 ==> word_lit_at(
                                #[trigger] ca0.args@[m],
                                *old(self),
                                closing,
                                word_run_pos(toks, closing, old(self).pos as int, m),
                            )) && ca0.keywords@.len() == 0))
                        ||| (self.pos == end && (cmd matches Expr::Call {
                            func: pf,
                            arguments: ca1,
                            ..
                        } && (*pf matches Expr::Attribute { value: cc, attr: pa, .. } && pa
                            == AttrName::Pipe && (*cc matches Expr::Call { arguments: ca0, .. }
                            && ca0.args@.len() == n0 && (forall|m: int|
                            0 <= m < n0 ==> word_lit_at(
                                #[trigger] ca0.args@[m],
                                *old(self),
                                closing,
                                word_run_pos(toks, closing, old(self).pos as int, m),
                            )) && ca0.keywords@.len() == 0)) && ca1.args@.len() == n1 && (
                        forall|m: int|
                            0 <= m < n1 ==> word_lit_at(
                                #[trigger] ca1.args@[m],
                                *old(self),
                                closing,
                                word_run_pos(toks, closing, g1, m),
                            )) && (cls1 == GroupStep::Close ==> ca1.keywords@.len() == 0) && (cls1
                            == GroupStep::Background ==> ca1.keywords@.len() == 1
                            && is_bg_keyword(ca1.keywords@[0]))))
                    }),
                forall|n: int|
                    ({
                        let toks = old(self).tokens@;
                        let jn = word_run_pos(toks, closing, old(self).pos as int, n);
                        #[trigger] words_group(*old(self), closing, old(self).pos as int, n)
                            && spec_classify(at_pos(*old(self), jn), closing) == GroupStep::Close
                            && toks[jn + 1].kind != TokenKind::Vbar
                    }) ==> ({
                        let toks = old(self).tokens@;
                        let jn = word_run_pos(toks, closing, old(self).pos as int, n);
                        let span = TextRange {
                            start: old(self).cur().range.start,
                            end: toks[jn].range.end,
                        };
                        &&& self.pos == jn + 1
                        &&& (cmd matches Expr::Call { func: cf, arguments: ca, range: cr }
                            && is_ox_attr(
                            *cf,
                            AttrName::Cmd,
                            old(self).cur().range,
                            old(self).cur().range,
                        ) && cr == span && ca.range == span && ca.args@.len() == n && (
                        forall|m: int|
                            0 <= m < n ==> word_lit_at(
                                #[trigger] ca.args@[m],
                                *old(self),
                                closing,
                                word_run_pos(toks, closing, old(self).pos as int, m),
                            )) && ca.keywords@.len() == 0)
                    }),
            decreases self.tokens@.len() - self.pos,
        {
            let ghost hd = *self;
            let pipe_start = self.node_start();
            self.bump_any();
            let ghost pre = *self;
            proof {
                let toks = old(self).tokens@;
                assert forall|n0: int, n1: int|
                    #[trigger] two_words_groups_pipe(
                        *old(self),
                        closing,
                        old(self).pos as int,
                        n0,
                        n1,
                    ) implies words_group(
                    pre,
                    closing,
                    word_run_pos(toks, closing, old(self).pos as int, n0) + 1,
                    n1,
                ) by {
                    lemma_words_group_same_stream(
                        *old(self),
                        pre,
                        closing,
                        word_run_pos(toks, closing, old(self).pos as int, n0) + 1,
                        n1,
                    );
                }
            }
            let attr_range = self.node_range(pipe_start);
            let attr = cmd.attr(AttrName::Pipe, attr_range);
            let group = self.parse_cmd_group(closing)?;
            let call_range = self.node_range(pipe_start);
            cmd = attr.call(group, call_range);
        }

        let method_range = self.node_range(start);
        let wrapped = cmd.attr(method, method_range);
        Ok(wrapped.call_empty(self.node_range(start)))
    }

    /// Parses a bare subprocess statement (`![...]` content up to the end of
    /// the line): the whole line is captured as a hidden subprocess call.
    pub fn parse_bare_proc(&mut self) -> (r: Result<Stmt, ParseFailure>)
        requires
            old(self).wf(),
        ensures
            final(self).stepped(*old(self)),
            r matches Ok(s) ==> (s matches Stmt::Expr { value, range } && is_subproc_expr(
                value,
                AttrName::Hide,
            ) && range == final(self).spec_node_range(old(self).cur().range.start)
                && value.spec_range() == range),
            old(self).cur().kind == TokenKind::Newline && old(self).tokens@[old(self).pos + 1].kind
                != TokenKind::Vbar ==> r is Ok,
            forall|n: int|
                ({
                    let toks = old(self).tokens@;
                    let jn = word_run_pos(toks, TokenKind::Newline, old(self).pos as int, n);
                    #[trigger] words_group(*old(self), TokenKind::Newline, old(self).pos as int, n)
                        && spec_classify(at_pos(*old(self), jn), TokenKind::Newline)
                        == GroupStep::Close && toks[jn + 1].kind != TokenKind::Vbar
                }) ==> (r matches Ok(s) && ({
                    let toks = old(self).tokens@;
                    let jn = word_run_pos(toks, TokenKind::Newline, old(self).pos as int, n);
                    s matches Stmt::Expr { value, .. } && (value matches Expr::Call {
                        func,
                        ..
                    } && (*func matches Expr::Attribute { value: chain, attr, .. } && attr
                        == AttrName::Hide && (*chain matches Expr::Call {
                        arguments: ca,
                        ..
                    } && ca.args@.len() == n && (forall|m: int|
                        0 <= m < n ==> word_lit_at(
                            #[trigger] ca.args@[m],
                            *old(self),
                            TokenKind::Newline,
                            word_run_pos(toks, TokenKind::Newline, old(self).pos as int, m),
                        )) && ca.keywords@.len() == 0)))
                })),
            forall|n0: int, n1: int|
                #[trigger] two_words_groups_pipe(
                    *old(self),
                    TokenKind::Newline,
                    old(self).pos as int,
                    n0,
                    n1,
                ) ==> (r matches Ok(s) && ({
                    let toks = old(self).tokens@;
                    let j0 = word_run_pos(toks, TokenKind::Newline, old(self).pos as int, n0);
                    let g1 = j0 + 1;
                    let j1 = word_run_pos(toks, TokenKind::Newline, g1, n1);
                    let cls1 = spec_classify(at_pos(*old(self), j1), TokenKind::Newline);
                    s matches Stmt::Expr { value, .. } && (value matches Expr::Call {
                        func,
                        ..
                    } && (*func matches Expr::Attribute { value: pc, attr, .. } && attr
                        == AttrName::Hide && (*pc matches Expr::Call {
                        func: pf,
                        arguments: ca1,
                        ..
                    } && (*pf matches Expr::Attribute { value: cc, attr: pa, .. } && pa
                        == AttrName::Pipe && (*cc matches Expr::Call { arguments: ca0, .. }
                        && ca0.args@.len() == n0 && (forall|m: int|
                        0 <= m < n0 ==> word_lit_at(
                            #[trigger] ca0.args@[m],
                            *old(self),
                            TokenKind::Newline,
                            word_run_pos(toks, TokenKind::Newline, old(self).pos as int, m),
                        )) && ca0.keywords@.len() == 0)) && ca1.args@.len() == n1 && (
                    forall|m: int|
                        0 <= m < n1 ==> word_lit_at(
                            #[trigger] ca1.args@[m],
                            *old(self),
                            TokenKind::Newline,
                            word_run_pos(toks, TokenKind::Newline, g1, m),
                        )) && (cls1 == GroupStep::Close ==> ca1.keywords@.len() == 0) && (cls1
                        == GroupStep::Background ==> ca1.keywords@.len() == 1 && is_bg_keyword(
                        ca1.keywords@[0],
                    )))))
                })),
        decreases self.tokens@.len() - self.pos, 10int,
    {
        let start = self.node_start();
        let expr = self.parse_subprocs(AttrName::Hide, TokenKind::Newline)?;
        let range = self.node_range(start);
        Ok(Stmt::Expr { value: expr, range })
    }
}

/// A string-literal expression with the given content and range, flagged
/// plain (never path or regex: promotions apply only to literals the lexer
/// flagged, which come through the atom rule).
pub fn string_literal(range: TextRange, value: Vec<u8>) -> (e: Expr)
    ensures
        e == (Expr::StringLiteral { value, flavor: StringFlavor::Plain, range }),
{
    Expr::StringLiteral { value, flavor: StringFlavor::Plain, range }
}


impl Parser {
    /// The common frame of every grammar step: the invariant holds, the
    /// stream is untouched, and the cursor only ever moves forward.
    pub open spec fn stepped(self, old: Parser) -> bool {
        &&& self.wf()
        &&& self.same_stream(old)
        &&& old.pos <= self.pos
        &&& old.prev_end <= self.prev_end
    }

    /// Parses one name token into a name expression holding its exact source
    /// bytes.
    pub fn parse_name(&mut self) -> (r: Result<Expr, ParseFailure>)
        requires
            old(self).wf(),
        ensures
            final(self).stepped(*old(self)),
            old(self).cur().kind == TokenKind::Name ==> (r matches Ok(e) && final(self).advanced(
                *old(self),
                1,
            ) && (e matches Expr::Name { id, range } && id@ == old(self).source@.subrange(
                old(self).cur().range.start as int,
                old(self).cur().range.end as int,
            ) && range == old(self).cur().range)),
            old(self).cur().kind != TokenKind::Name ==> r == Err::<Expr, ParseFailure>(
                ParseFailure::Syntax(
                    ParseErrorType::ExpectedToken {
                        expected: TokenKind::Name,
                        found: old(self).cur().kind,
                    },
                ),
            ) && *final(self) == *old(self),
    {
        let range = match self.expect(TokenKind::Name) {
            Ok(range) => range,
            Err(e) => {
                return Err(ParseFailure::Syntax(e));
            },
        };
        let id = slice_to_vec(slice_subrange(self.source.as_slice(), range.start, range.end));
        Ok(Expr::Name { id, range })
    }

    /// Parses one string token into a string-literal expression holding the
    /// token's content bytes and carrying the lexer's flavor flag.
    pub fn parse_strings(&mut self) -> (r: Result<Expr, ParseFailure>)
        requires
            old(self).wf(),
        ensures
            final(self).stepped(*old(self)),
            old(self).cur().kind == TokenKind::String ==> (r matches Ok(e) && final(self).advanced(
                *old(self),
                1,
            ) && is_string_lit(
                e,
                old(self).source@.subrange(
                    old(self).cur().inner.start as int,
                    old(self).cur().inner.end as int,
                ),
                old(self).cur().flavor,
                old(self).cur().range,
            )),
            old(self).cur().kind != TokenKind::String ==> r == Err::<Expr, ParseFailure>(
                ParseFailure::Syntax(
                    ParseErrorType::ExpectedToken {
                        expected: TokenKind::String,
                        found: old(self).cur().kind,
                    },
                ),
            ) && *final(self) == *old(self),
    {
        let tok = self.current_token();
        if !self.at(TokenKind::String) {
            return Err(ParseFailure::Syntax(ParseErrorType::ExpectedToken {
                expected: TokenKind::String,
                found: tok.kind,
            }));
        }
        self.bump_any();
        let value = slice_to_vec(
            slice_subrange(self.source.as_slice(), tok.inner.start, tok.inner.end),
        );
        Ok(Expr::StringLiteral { value, flavor: tok.flavor, range: tok.range })
    }

    /// Parses `$NAME`: the environment access desugars to the subscript
    /// `ox.env[NAME]` with the name's exact source text as the string key.
    pub fn parse_env_name(&mut self) -> (r: Result<Expr, ParseFailure>)
        requires
            old(self).wf(),
        ensures
            final(self).stepped(*old(self)),
            old(self).cur().kind != TokenKind::Dollar ==> r == Err::<Expr, ParseFailure>(
                ParseFailure::Syntax(
                    ParseErrorType::ExpectedToken {
                        expected: TokenKind::Dollar,
                        found: old(self).cur().kind,
                    },
                ),
            ) && *final(self) == *old(self),
            old(self).cur().kind == TokenKind::Dollar && old(self).spec_peek() != TokenKind::Name
                ==> (r == Err::<Expr, ParseFailure>(
                ParseFailure::Syntax(
                    ParseErrorType::ExpectedToken {
                        expected: TokenKind::Name,
                        found: old(self).spec_peek(),
                    },
                ),
            ) && final(self).advanced(*old(self), 1)),
            old(self).cur().kind == TokenKind::Dollar && old(self).spec_peek() == TokenKind::Name
                ==> (r matches Ok(e) && final(self).advanced(*old(self), 2) && is_env_access(
                e,
                old(self).source@,
                old(self).cur(),
                old(self).tokens@[old(self).pos + 1],
            ) && expr_spanned(
                e,
                old(self).cur().range.start as int,
                final(self).cur().range.start as int,
            )),
    {
        let dollar = match self.expect(TokenKind::Dollar) {
            Ok(r) => r,
            Err(e) => {
                return Err(ParseFailure::Syntax(e));
            },
        };
        let attr = self.xonsh_attr(AttrName::Env, Some(dollar));
        let start = self.node_start();
        let name = match self.expect(TokenKind::Name) {
            Ok(r) => r,
            Err(e) => {
                return Err(ParseFailure::Syntax(e));
            },
        };
        let slice = self.to_string_literal(name);
        let range = self.node_range(start);
        Ok(Expr::Subscript { value: Box::new(attr), slice: Box::new(slice), range })
    }

    /// Parses `${expr}`: the environment access desugars to `ox.env[expr]`.
    /// Empty braces are invalid and fail with the
    /// "expected environment-variable name or expression" error.
    pub fn parse_env_expr(&mut self) -> (r: Result<Expr, ParseFailure>)
        requires
            old(self).wf(),
        ensures
            final(self).stepped(*old(self)),
            old(self).cur().kind != TokenKind::DollarLBrace ==> r == Err::<Expr, ParseFailure>(
                ParseFailure::Syntax(
                    ParseErrorType::ExpectedToken {
                        expected: TokenKind::DollarLBrace,
                        found: old(self).cur().kind,
                    },
                ),
            ) && *final(self) == *old(self),
            old(self).cur().kind == TokenKind::DollarLBrace && old(self).spec_peek()
                == TokenKind::Rbrace ==> (final(self).advanced(*old(self), 2) && (r matches Err(
                ParseFailure::Syntax(ParseErrorType::OtherError(m)),
            ) && m@ == empty_env_message(final(self).cur().kind))),
            r matches Ok(_) ==> old(self).pos < final(self).pos,
            r matches Ok(e) ==> (old(self).cur().kind == TokenKind::DollarLBrace && old(
                self,
            ).spec_peek() != TokenKind::Rbrace && (e matches Expr::Subscript {
                value,
                slice,
                range,
            } && is_ox_attr(
                *value,
                AttrName::Env,
                old(self).tokens@[old(self).pos + 1].range,
                old(self).cur().range,
            ) && range == (TextRange {
                start: old(self).tokens@[old(self).pos + 1].range.start,
                end: final(self).prev_end,
            }) && final(self).pos >= 1 && final(self).tokens@[final(self).pos - 1].kind
                == TokenKind::Rbrace)),
            r matches Ok(e) ==> expr_spanned(
                e,
                old(self).cur().range.start as int,
                final(self).cur().range.start as int,
            ),
            two_string_sum_at(*old(self), old(self).pos + 1) && old(self).cur().kind
                == TokenKind::DollarLBrace && old(self).tokens@[old(self).pos + 4].kind
                == TokenKind::Rbrace ==> (r matches Ok(e) && final(self).advanced(*old(self), 5)
                && (e matches Expr::Subscript { slice, .. } && is_string_sum(
                *slice,
                old(self).source@,
                old(self).tokens@[old(self).pos + 1],
                old(self).tokens@[old(self).pos + 3],
            ))),
            (old(self).cur().kind == TokenKind::DollarLBrace && old(self).spec_peek()
                == TokenKind::Name && old(self).pos + 2 < old(self).tokens@.len() && old(
                self,
            ).tokens@[old(self).pos + 2].kind == TokenKind::Rbrace && old(self).tokens@[old(
                self,
            ).pos + 2].kind != TokenKind::Plus) ==> (r matches Ok(e) && final(self).advanced(
                *old(self),
                3,
            ) && (e matches Expr::Subscript { slice, .. } && (*slice matches Expr::Name {
                id,
                range,
            } && id@ == old(self).source@.subrange(
                old(self).tokens@[old(self).pos + 1].range.start as int,
                old(self).tokens@[old(self).pos + 1].range.end as int,
            ) && range == old(self).tokens@[old(self).pos + 1].range))),
        decreases self.tokens@.len() - self.pos, 1int,
    {
        let dollar = match self.expect(TokenKind::DollarLBrace) {
            Ok(r) => r,
            Err(e) => {
                return Err(ParseFailure::Syntax(e));
            },
        };
        let attr = self.xonsh_attr(AttrName::Env, Some(dollar));

        // The subscript range does not include the opening token.
        let slice_start = self.node_start();

        if self.eat(TokenKind::Rbrace) {
            // Empty braces give the parse nothing to subscript with.
            let found = self.current_token_kind();
            let mut msg = "Expected an Environment variable name or expression, got ".to_owned();
            msg = msg.concat(found.name());
            return Err(ParseFailure::Syntax(ParseErrorType::OtherError(msg)));
        }
        let slice = self.parse_slice(TokenKind::Rbrace)?;

        match self.expect(TokenKind::Rbrace) {
            Ok(_) => {},
            Err(e) => {
                return Err(ParseFailure::Syntax(e));
            },
        }

        let range = self.node_range(slice_start);
        Ok(Expr::Subscript { value: Box::new(attr), slice: Box::new(slice), range })
    }

    /// The minimal atom rule of the host expression grammar this extension
    /// needs: names, integers, (possibly promoted) string literals,
    /// parenthesized sums, environment accesses and nested subprocess
    /// captures. Anything else — including an f-string start, which the
    /// host's full atom parser would handle — is reported as a missing
    /// expression: the host expression grammar itself is outside this
    /// library, and this subset stands in for it.
    pub fn parse_atom(&mut self) -> (r: Result<Expr, ParseFailure>)
        requires
            old(self).wf(),
        ensures
            final(self).stepped(*old(self)),
            r matches Ok(_) ==> old(self).pos < final(self).pos,
            r matches Ok(e) ==> expr_spanned(
                e,
                old(self).cur().range.start as int,
                final(self).cur().range.start as int,
            ),
            old(self).cur().kind == TokenKind::Name ==> (r matches Ok(e) && final(self).advanced(
                *old(self),
                1,
            ) && (e matches Expr::Name { id, range } && id@ == old(self).source@.subrange(
                old(self).cur().range.start as int,
                old(self).cur().range.end as int,
            ) && range == old(self).cur().range)),
            old(self).cur().kind == TokenKind::Int ==> (r matches Ok(e) && final(self).advanced(
                *old(self),
                1,
            ) && (e matches Expr::IntLiteral { digits, range } && digits@
                == old(self).source@.subrange(
                old(self).cur().range.start as int,
                old(self).cur().range.end as int,
            ) && range == old(self).cur().range)),
            old(self).cur().kind == TokenKind::String && old(self).cur().flavor
                == StringFlavor::Plain ==> (r matches Ok(e) && final(self).advanced(*old(self), 1)
                && is_string_lit(
                e,
                old(self).source@.subrange(
                    old(self).cur().inner.start as int,
                    old(self).cur().inner.end as int,
                ),
                StringFlavor::Plain,
                old(self).cur().range,
            )),
            (old(self).cur().kind == TokenKind::Lpar && old(self).spec_peek() == TokenKind::Name
                && old(self).pos + 2 < old(self).tokens@.len() && old(self).tokens@[old(self).pos
                + 2].kind == TokenKind::Rpar) ==> (r matches Ok(e) && final(self).advanced(
                *old(self),
                3,
            ) && (e matches Expr::Name { id, range } && id@ == old(self).source@.subrange(
                old(self).tokens@[old(self).pos + 1].range.start as int,
                old(self).tokens@[old(self).pos + 1].range.end as int,
            ) && range == old(self).tokens@[old(self).pos + 1].range)),
        decreases self.tokens@.len() - self.pos, 2int,
    {
        let start = self.node_start();
        match self.current_token_kind() {
            TokenKind::Name => self.parse_name(),
            TokenKind::Int => {
                let range = self.current_token_range();
                self.bump_any();
                let digits = slice_to_vec(
                    slice_subrange(self.source.as_slice(), range.start, range.end),
                );
                Ok(Expr::IntLiteral { digits, range })
            },
            TokenKind::String => {
                let lit = self.parse_strings()?;
                Ok(self.parse_special_strings(lit, start))
            },
            TokenKind::Dollar => self.parse_env_name(),
            TokenKind::DollarLBrace => self.parse_env_expr(),
            TokenKind::DollarLParen | TokenKind::AtDollarLParen => {
                proof {
                    assert(crate::cursor::adjacent_ordered(
                        self.tokens@,
                        self.pos as int,
                    ));
                }
                self.bump_any();
                let ghost mid = *self;
                let e = self.parse_subprocs(AttrName::Out, TokenKind::Rpar)?;
                proof {
                    crate::cursor::lemma_token_positions_ordered(
                        *self,
                        mid.pos as int,
                        self.pos as int,
                    );
                }
                Ok(e)
            },
            TokenKind::Lpar => {
                proof {
                    assert(crate::cursor::adjacent_ordered(
                        self.tokens@,
                        self.pos as int,
                    ));
                }
                self.bump_any();
                let inner = self.parse_expr_plus()?;
                let ghost mid = *self;
                match self.expect(TokenKind::Rpar) {
                    Ok(_) => {
                        proof {
                            crate::cursor::lemma_token_positions_ordered(
                                *self,
                                mid.pos as int,
                                self.pos as int,
                            );
                        }
                        Ok(inner)
                    },
                    Err(e) => Err(ParseFailure::Syntax(e)),
                }
            },
            _ => Err(ParseFailure::Syntax(ParseErrorType::ExpectedExpression)),
        }
    }

    /// A left-associated chain of `+` over atoms: the one binary shape the
    /// embedded expression subset supports (string concatenation in
    /// `${"HO" + "ME"}`).
    pub fn parse_expr_plus(&mut self) -> (r: Result<Expr, ParseFailure>)
        requires
            old(self).wf(),
        ensures
            final(self).stepped(*old(self)),
            r matches Ok(_) ==> old(self).pos < final(self).pos,
            r matches Ok(e) ==> expr_spanned(
                e,
                old(self).cur().range.start as int,
                final(self).cur().range.start as int,
            ),
            r matches Ok(_) ==> final(self).cur().kind != TokenKind::Plus,
            (old(self).cur().kind == TokenKind::Name && old(self).spec_peek() != TokenKind::Plus)
                ==> (r matches Ok(e) && final(self).advanced(*old(self), 1) && (e matches
                Expr::Name { id, range } && id@ == old(self).source@.subrange(
                old(self).cur().range.start as int,
                old(self).cur().range.end as int,
            ) && range == old(self).cur().range)),
            two_string_sum_at(*old(self), old(self).pos as int) ==> (r matches Ok(e)
                && final(self).advanced(*old(self), 3) && is_string_sum(
                e,
                old(self).source@,
                old(self).tokens@[old(self).pos as int],
                old(self).tokens@[old(self).pos + 2],
            )),
        decreases self.tokens@.len() - self.pos, 3int,
    {
        let start = self.node_start();
        let mut lhs = self.parse_atom()?;
        while self.at(TokenKind::Plus)
            invariant
                self.wf(),
                self.same_stream(*old(self)),
                old(self).pos < self.pos,
                old(self).prev_end <= self.prev_end,
                start == old(self).cur().range.start,
                expr_spanned(lhs, start as int, self.cur().range.start as int),
                (old(self).cur().kind == TokenKind::Name && old(self).spec_peek()
                    != TokenKind::Plus) ==> (self.pos == old(self).pos + 1 && (lhs matches
                    Expr::Name { id, range } && id@ == old(self).source@.subrange(
                    old(self).cur().range.start as int,
                    old(self).cur().range.end as int,
                ) && range == old(self).cur().range)),
                two_string_sum_at(*old(self), old(self).pos as int) ==> ((self.pos
                    == old(self).pos + 1 && is_string_lit(
                    lhs,
                    old(self).source@.subrange(
                        old(self).cur().inner.start as int,
                        old(self).cur().inner.end as int,
                    ),
                    StringFlavor::Plain,
                    old(self).cur().range,
                )) || (self.pos == old(self).pos + 3 && is_string_sum(
                    lhs,
                    old(self).source@,
                    old(self).tokens@[old(self).pos as int],
                    old(self).tokens@[old(self).pos + 2],
                ))),
            decreases self.tokens@.len() - self.pos,
        {
            self.bump_any();
            let rhs = self.parse_atom()?;
            let range = self.node_range(start);
            proof {
                crate::cursor::lemma_token_positions_ordered(
                    *self,
                    old(self).pos as int,
                    self.pos - 1,
                );
            }
            lhs = Expr::BinOp { left: Box::new(lhs), op: BinOpKind::Add, right: Box::new(rhs), range };
        }
        Ok(lhs)
    }

    /// Parses a full (subset) expression up to the given closing token; the
    /// closing token itself is left for the caller.
    pub fn parse_slice(&mut self, closing: TokenKind) -> (r: Result<Expr, ParseFailure>)
        requires
            old(self).wf(),
        ensures
            final(self).stepped(*old(self)),
            r matches Ok(_) ==> old(self).pos < final(self).pos,
            r matches Ok(e) ==> expr_spanned(
                e,
                old(self).cur().range.start as int,
                final(self).cur().range.start as int,
            ),
            r matches Ok(_) ==> final(self).cur().kind != TokenKind::Plus,
            (old(self).cur().kind == TokenKind::Name && old(self).spec_peek() != TokenKind::Plus)
                ==> (r matches Ok(e) && final(self).advanced(*old(self), 1) && (e matches
                Expr::Name { id, range } && id@ == old(self).source@.subrange(
                old(self).cur().range.start as int,
                old(self).cur().range.end as int,
            ) && range == old(self).cur().range)),
            two_string_sum_at(*old(self), old(self).pos as int) ==> (r matches Ok(e)
                && final(self).advanced(*old(self), 3) && is_string_sum(
                e,
                old(self).source@,
                old(self).tokens@[old(self).pos as int],
                old(self).tokens@[old(self).pos + 2],
            )),
        decreases self.tokens@.len() - self.pos, 4int,
    {
        let _ = closing;
        self.parse_expr_plus()
    }
}

/// The shape of a desugared `$NAME` environment access: the subscript
/// `ox.env[NAME]`, where the `ox` name spans the name token, the attribute
/// access spans the dollar token, the key is a string literal holding the
/// name's exact source bytes, and the whole subscript spans the name token.
pub open spec fn is_env_access(e: Expr, src: Seq<u8>, dollar: Token, name_tok: Token) -> bool {
    e matches Expr::Subscript { value, slice, range } && is_ox_attr(
        *value,
        AttrName::Env,
        name_tok.range,
        dollar.range,
    ) && is_string_lit(
        *slice,
        src.subrange(name_tok.range.start as int, name_tok.range.end as int),
        StringFlavor::Plain,
        name_tok.range,
    ) && range == name_tok.range
}

/// The shape of a desugared `@name"pattern"` decoration: the starred call
/// `*ox.Pattern(pattern).invoke(name)`, where `name_tok` and `string_tok`
/// are the two consumed tokens, `after` is the token the cursor rests on
/// afterwards, and `src` is the source buffer. The pattern literal holds the
/// string token's content bytes, the name holds its exact source bytes, and
/// every synthesized node spans the decorated text.
pub open spec fn is_pattern_decoration(
    e: Expr,
    src: Seq<u8>,
    name_tok: Token,
    string_tok: Token,
    after: Token,
) -> bool {
    let whole = TextRange { start: name_tok.range.start, end: string_tok.range.end };
    let star_range = TextRange { start: after.range.start, end: after.range.start };
    e matches Expr::Starred { value, range: sr } && sr == star_range && (*value matches Expr::Call {
        func,
        arguments,
        range: cr,
    } && cr == whole && arguments.range == whole && arguments.keywords@.len() == 0
        && arguments.args@.len() == 1 && (arguments.args@[0] matches Expr::Name { id, range: nr }
        && id@ == src.subrange(name_tok.range.start as int, name_tok.range.end as int) && nr
        == name_tok.range) && (*func matches Expr::Attribute { value: inv, attr, range: ar }
        && attr == AttrName::Invoke && ar == whole && (*inv matches Expr::Call {
        func: pf,
        arguments: pa,
        range: pr,
    } && pr == whole && pa.range == whole && pa.keywords@.len() == 0 && pa.args@.len() == 1
        && is_string_lit(
        pa.args@[0],
        src.subrange(string_tok.inner.start as int, string_tok.inner.end as int),
        string_tok.flavor,
        string_tok.range,
    ) && is_ox_attr(*pf, AttrName::Pattern, after.range, after.range))))
}

/// The message reported for `${}`: empty braces never parse, they fail with
/// this text naming the token found after them.
pub open spec fn empty_env_message(found: TokenKind) -> Seq<char> {
    "Expected an Environment variable name or expression, got "@ + found.spec_name()
}

} // verus!
