use vstd::prelude::*;
use crate::text::TextRange;
use crate::token::{Token, TokenKind};
use crate::ast::Expr;
use crate::cursor::Parser;
use crate::subproc::{
    GroupStep, is_env_access, is_pattern_decoration, is_redirect_op, spec_classify,
    spec_redirect_type, RedirectType,
};

verus! {

/// Structural equivalence of two syntax trees: the same node shapes with the
/// same ranges, comparing held byte buffers and child lists by their
/// contents.
pub open spec fn expr_alike(a: Expr, b: Expr) -> bool
    decreases a,
{
    match (a, b) {
        (Expr::Name { id: i1, range: r1 }, Expr::Name { id: i2, range: r2 }) => i1@ == i2@ && r1
            == r2,
        (
            Expr::Attribute { value: v1, attr: a1, range: r1 },
            Expr::Attribute { value: v2, attr: a2, range: r2 },
        ) => expr_alike(*v1, *v2) && a1 == a2 && r1 == r2,
        (
            Expr::Subscript { value: v1, slice: s1, range: r1 },
            Expr::Subscript { value: v2, slice: s2, range: r2 },
        ) => expr_alike(*v1, *v2) && expr_alike(*s1, *s2) && r1 == r2,
        (
            Expr::StringLiteral { value: v1, flavor: f1, range: r1 },
            Expr::StringLiteral { value: v2, flavor: f2, range: r2 },
        ) => v1@ == v2@ && f1 == f2 && r1 == r2,
        (
            Expr::IntLiteral { digits: d1, range: r1 },
            Expr::IntLiteral { digits: d2, range: r2 },
        ) => d1@ == d2@ && r1 == r2,
        (Expr::Starred { value: v1, range: r1 }, Expr::Starred { value: v2, range: r2 }) =>
            expr_alike(*v1, *v2) && r1 == r2,
        (
            Expr::BinOp { left: l1, op: o1, right: rr1, range: r1 },
            Expr::BinOp { left: l2, op: o2, right: rr2, range: r2 },
        ) => expr_alike(*l1, *l2) && o1 == o2 && expr_alike(*rr1, *rr2) && r1 == r2,
        (
            Expr::Call { func: f1, arguments: a1, range: r1 },
            Expr::Call { func: f2, arguments: a2, range: r2 },
        ) => expr_alike(*f1, *f2) && r1 == r2 && a1.range == a2.range && a1.args@.len()
            == a2.args@.len() && (forall|i: int|
            0 <= i < a1.args@.len() ==> expr_alike(#[trigger] a1.args@[i], a2.args@[i]))
            && a1.keywords@.len() == a2.keywords@.len() && (forall|i: int|
            0 <= i < a1.keywords@.len() ==> (#[trigger] a1.keywords@[i]).arg
                == a2.keywords@[i].arg && a1.keywords@[i].range == a2.keywords@[i].range
                && expr_alike(a1.keywords@[i].value, a2.keywords@[i].value)),
        _ => a == b,
    }
}

/// The environment-access branch is deterministic: for one source buffer and
/// one pair of dollar and name tokens, any two syntax trees of the desugared
/// access have the same shape.
pub proof fn lemma_env_access_deterministic(
    src: Seq<u8>,
    dollar: Token,
    name_tok: Token,
    r1: Expr,
    r2: Expr,
)
    requires
        is_env_access(r1, src, dollar, name_tok),
        is_env_access(r2, src, dollar, name_tok),
    ensures
        expr_alike(r1, r2),
{
    match (r1, r2) {
        (
            Expr::Subscript { value: v1, slice: s1, range: _ },
            Expr::Subscript { value: v2, slice: s2, range: _ },
        ) => {
            match (*v1, *v2) {
                (
                    Expr::Attribute { value: n1, attr: _, range: _ },
                    Expr::Attribute { value: n2, attr: _, range: _ },
                ) => {
                    assert(expr_alike(*n1, *n2));
                    assert(expr_alike(*v1, *v2));
                },
                _ => {
                    assert(false);
                },
            }
            assert(expr_alike(*s1, *s2));
        },
        _ => {
            assert(false);
        },
    }
}

/// The pattern-decoration branch is deterministic: for one source buffer
/// and one run of name, string and following token, any two syntax trees of
/// the desugared `@name"pattern"` decoration have the same shape.
pub proof fn lemma_pattern_decoration_deterministic(
    src: Seq<u8>,
    name_tok: Token,
    string_tok: Token,
    after: Token,
    r1: Expr,
    r2: Expr,
)
    requires
        is_pattern_decoration(r1, src, name_tok, string_tok, after),
        is_pattern_decoration(r2, src, name_tok, string_tok, after),
    ensures
        expr_alike(r1, r2),
{
    match (r1, r2) {
        (Expr::Starred { value: v1, range: _ }, Expr::Starred { value: v2, range: _ }) => {
            match (*v1, *v2) {
                (
                    Expr::Call { func: f1, arguments: a1, range: _ },
                    Expr::Call { func: f2, arguments: a2, range: _ },
                ) => {
                    assert(expr_alike(a1.args@[0], a2.args@[0]));
                    match (*f1, *f2) {
                        (
                            Expr::Attribute { value: i1, attr: _, range: _ },
                            Expr::Attribute { value: i2, attr: _, range: _ },
                        ) => {
                            match (*i1, *i2) {
                                (
                                    Expr::Call { func: p1, arguments: pa1, range: _ },
                                    Expr::Call { func: p2, arguments: pa2, range: _ },
                                ) => {
                                    assert(expr_alike(pa1.args@[0], pa2.args@[0]));
                                    match (*p1, *p2) {
                                        (
                                            Expr::Attribute { value: o1, attr: _, range: _ },
                                            Expr::Attribute { value: o2, attr: _, range: _ },
                                        ) => {
                                            assert(expr_alike(*o1, *o2));
                                            assert(expr_alike(*p1, *p2));
                                        },
                                        _ => {
                                            assert(false);
                                        },
                                    }
                                    assert(expr_alike(*i1, *i2));
                                },
                                _ => {
                                    assert(false);
                                },
                            }
                            assert(expr_alike(*f1, *f2));
                        },
                        _ => {
                            assert(false);
                        },
                    }
                    assert(expr_alike(*v1, *v2));
                },
                _ => {
                    assert(false);
                },
            }
        },
        _ => {
            assert(false);
        },
    }
}

/// The redirection branch classifies deterministically: the kind a
/// redirection operator stands for is a function of the token kind alone.
pub proof fn lemma_redirect_kind_deterministic(k: TokenKind, t1: RedirectType, t2: RedirectType)
    requires
        is_redirect_op(k),
        t1 == spec_redirect_type(k),
        t2 == spec_redirect_type(k),
    ensures
        t1 == t2,
{
}

/// `&` is treated as a background marker exactly when the group's closing
/// token immediately follows; when a redirection operator follows instead it
/// becomes a redirection source, and otherwise it is ordinary literal
/// argument content.
pub proof fn lemma_amper_classification(p: Parser, closing: TokenKind)
    requires
        p.wf(),
        p.cur().kind == TokenKind::Amper,
        closing != TokenKind::EndOfFile,
        !closing.spec_is_proc_op(),
    ensures
        spec_classify(p, closing) == GroupStep::Background <==> p.spec_peek() == closing,
        is_redirect_op(p.spec_peek()) ==> spec_classify(p, closing) == GroupStep::RedirectWithSrc,
        p.spec_peek() != closing && !is_redirect_op(p.spec_peek()) ==> spec_classify(p, closing)
            == GroupStep::Argument,
{
}

/// Every error located at the current token of a well-formed cursor has a
/// usable byte range: non-empty, or the zero-width range at the very end of
/// the source. In particular it is never `[0, 0)` over a non-empty source.
pub proof fn lemma_error_location_never_degenerate(p: Parser)
    requires
        p.wf(),
        p.source@.len() > 0,
    ensures
        !(p.cur().range == (TextRange { start: 0, end: 0 })),
{
    crate::cursor::lemma_error_location_grounded(
        p,
        crate::errors::ParseErrorType::ExpectedExpression,
    );
}

} // verus!
