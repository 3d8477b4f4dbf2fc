//! The reference rewriter: a post-order fold over the tree that
//! replaces every reference-forming expression with a block that first
//! binds the reference to a hidden temporary and then passes it through
//! the erasure call, and that re-binds every by-reference pattern
//! binding of an `if let` condition or `match` arm through the erasure
//! call at the head of the guarded branch body.
//!
//! The ghost functions here are the specification of the transform;
//! the executable functions are proved to compute exactly them.

use vstd::prelude::*;
use vstd::slice::slice_index_get;
use vstd::slice::slice_subrange;
use crate::ast::SArm;
use crate::ast::SExpr;
use crate::ast::SFile;
use crate::ast::SItem;
use crate::ast::SPat;
use crate::ast::SSeg;
use crate::ast::SStmt;
use crate::ast::STree;
use crate::ast::Span;
use crate::ast::Arm;
use crate::ast::Expr;
use crate::ast::File;
use crate::ast::Item;
use crate::ast::Pat;
use crate::ast::Seg;
use crate::ast::Stmt;
use crate::ast::Tree;
use crate::ast::view_expr;
use crate::ast::view_opt;
use crate::ast::view_stmts;
use crate::ast::view_stmt;
use crate::ast::view_arms;
use crate::ast::view_arm;
use crate::ast::view_segs;
use crate::ast::view_seg;
use crate::ast::view_items;
use crate::ast::view_item;
use crate::ast::view_pat;
use crate::collect::Binding;
use crate::collect::SBinding;
use crate::collect::bindings_view;
use crate::collect::collected_pat;
use crate::collect::collect_refs;

verus! {

/// The name of the hidden temporary that a rewritten reference
/// expression is bound to before it is passed to the erasure call.
pub open spec fn temp_name() -> Seq<char> {
    "__ref"@
}

/// The statement `let name = erase(name);` that re-binds one collected
/// by-reference binding through the erasure call, shadowing it.
pub open spec fn erase_binding_stmt(b: SBinding) -> SStmt {
    SStmt::Let {
        pat: SPat::Binding {
            by_ref: false,
            mutable: false,
            name: b.name,
            span: b.span,
            sub: None,
        },
        init: Some(
            Box::new(
                SExpr::Erase {
                    span: b.span,
                    arg: Box::new(SExpr::Path { name: b.name, span: b.span }),
                },
            ),
        ),
        span: b.span,
    }
}

/// The re-binding prologue for a list of collected bindings, one
/// statement per binding, in collection order.
pub open spec fn prologue(bs: Seq<SBinding>) -> Seq<SStmt> {
    bs.map_values(|b: SBinding| erase_binding_stmt(b))
}

/// The prologue owed to an `if` condition: the re-bindings of its
/// pattern when it is a `let` condition, and nothing otherwise.
pub open spec fn cond_prologue(cond: SExpr) -> Seq<SStmt> {
    match cond {
        SExpr::LetCond { pat, scrutinee: _, span: _ } => prologue(collected_pat(pat)),
        _ => Seq::empty(),
    }
}

/// The replacement for a reference expression whose inner expression
/// has already been rewritten to `inner`: a block that binds the
/// reference to the hidden temporary and evaluates to the erasure call
/// applied to it.
pub open spec fn wrap_in_erasure(mutable: bool, span: Span, inner: SExpr) -> SExpr {
    SExpr::Block {
        stmts: seq![
            SStmt::Let {
                pat: SPat::Binding {
                    by_ref: false,
                    mutable: false,
                    name: temp_name(),
                    span,
                    sub: None,
                },
                init: Some(
                    Box::new(SExpr::Ref { mutable, span, inner: Box::new(inner) }),
                ),
                span,
            },
            SStmt::Expr {
                expr: Box::new(
                    SExpr::Erase {
                        span,
                        arg: Box::new(SExpr::Path { name: temp_name(), span }),
                    },
                ),
                semi: false,
                span,
            },
        ],
        span,
    }
}

// ---------------------------------------------------------------------
// The rewrite, as a ghost function
// ---------------------------------------------------------------------

/// The rewritten form of an expression.
pub open spec fn rewritten_expr(e: SExpr) -> SExpr
    decreases e,
{
    match e {
        SExpr::Ref { mutable, span, inner } => wrap_in_erasure(
            mutable,
            span,
            rewritten_expr(*inner),
        ),
        SExpr::Erase { span, arg } => SExpr::Erase { span, arg: Box::new(rewritten_expr(*arg)) },
        SExpr::LetCond { pat, scrutinee, span } => SExpr::LetCond {
            pat,
            scrutinee: Box::new(rewritten_expr(*scrutinee)),
            span,
        },
        SExpr::If { cond, then_branch, else_branch, span } => SExpr::If {
            cond: Box::new(rewritten_expr(*cond)),
            then_branch: cond_prologue(*cond) + rewritten_stmts(then_branch),
            else_branch: rewritten_opt(else_branch),
            span,
        },
        SExpr::Match { scrutinee, arms, span } => SExpr::Match {
            scrutinee: Box::new(rewritten_expr(*scrutinee)),
            arms: rewritten_arms(arms),
            span,
        },
        SExpr::Block { stmts, span } => SExpr::Block { stmts: rewritten_stmts(stmts), span },
        SExpr::Path { name: _, span: _ } => e,
        SExpr::Node { segs, span } => SExpr::Node { segs: rewritten_segs(segs), span },
        SExpr::Atom { text: _, span: _ } => e,
    }
}

/// The rewritten form of an optional expression.
pub open spec fn rewritten_opt(oe: Option<Box<SExpr>>) -> Option<Box<SExpr>>
    decreases oe,
{
    match oe {
        Some(e) => Some(Box::new(rewritten_expr(*e))),
        None => None,
    }
}

/// The rewritten form of a statement list.
pub open spec fn rewritten_stmts(ss: Seq<SStmt>) -> Seq<SStmt>
    decreases ss,
{
    if ss.len() == 0 {
        Seq::empty()
    } else {
        seq![rewritten_stmt(ss[0])] + rewritten_stmts(ss.drop_first())
    }
}

/// The rewritten form of a statement.
pub open spec fn rewritten_stmt(s: SStmt) -> SStmt
    decreases s,
{
    match s {
        SStmt::Let { pat, init, span } => SStmt::Let { pat, init: rewritten_opt(init), span },
        SStmt::Expr { expr, semi, span } => SStmt::Expr {
            expr: Box::new(rewritten_expr(*expr)),
            semi,
            span,
        },
        SStmt::Atom { text: _, span: _ } => s,
    }
}

/// The rewritten form of a list of match arms.
pub open spec fn rewritten_arms(aa: Seq<SArm>) -> Seq<SArm>
    decreases aa,
{
    if aa.len() == 0 {
        Seq::empty()
    } else {
        seq![rewritten_arm(aa[0])] + rewritten_arms(aa.drop_first())
    }
}

/// The rewritten form of one match arm: its pattern is kept, its guard
/// and body are rewritten, and when the pattern holds by-reference
/// bindings the body is wrapped in a block that re-binds each of them
/// first, in collection order. Each arm is treated on its own.
pub open spec fn rewritten_arm(a: SArm) -> SArm
    decreases a,
{
    let bs = collected_pat(a.pat);
    let body = rewritten_expr(*a.body);
    SArm {
        pat: a.pat,
        guard: rewritten_opt(a.guard),
        body: if bs.len() == 0 {
            Box::new(body)
        } else {
            Box::new(
                SExpr::Block {
                    stmts: prologue(bs) + seq![
                        SStmt::Expr { expr: Box::new(body), semi: false, span: a.span },
                    ],
                    span: a.span,
                },
            )
        },
        span: a.span,
    }
}

/// The rewritten form of a list of template segments.
pub open spec fn rewritten_segs(gg: Seq<SSeg>) -> Seq<SSeg>
    decreases gg,
{
    if gg.len() == 0 {
        Seq::empty()
    } else {
        seq![rewritten_seg(gg[0])] + rewritten_segs(gg.drop_first())
    }
}

/// The rewritten form of one template segment.
pub open spec fn rewritten_seg(g: SSeg) -> SSeg
    decreases g,
{
    match g {
        SSeg::Text(t) => SSeg::Text(t),
        SSeg::Child(e) => SSeg::Child(Box::new(rewritten_expr(*e))),
    }
}

/// The rewritten form of an item.
pub open spec fn rewritten_item(it: SItem) -> SItem
    decreases it,
{
    match it {
        SItem::Fn { sig, body, span } => SItem::Fn { sig, body: rewritten_stmts(body), span },
        SItem::Group { header, items, span } => SItem::Group {
            header,
            items: rewritten_items(items),
            span,
        },
        SItem::Atom { text: _, span: _ } => it,
    }
}

/// The rewritten form of an item list.
pub open spec fn rewritten_items(ii: Seq<SItem>) -> Seq<SItem>
    decreases ii,
{
    if ii.len() == 0 {
        Seq::empty()
    } else {
        seq![rewritten_item(ii[0])] + rewritten_items(ii.drop_first())
    }
}

/// The rewritten form of a whole file.
pub open spec fn rewritten_file(f: SFile) -> SFile {
    SFile { items: rewritten_items(f.items) }
}

/// The rewritten form of a transformation unit.
pub open spec fn rewritten_tree(t: STree) -> STree {
    match t {
        STree::File(f) => STree::File(rewritten_file(f)),
        STree::Expr(e) => STree::Expr(rewritten_expr(e)),
        STree::Stmt(s) => STree::Stmt(rewritten_stmt(s)),
    }
}

// ---------------------------------------------------------------------
// The rewritten sites, as a ghost function
// ---------------------------------------------------------------------

/// The spans of a list of collected bindings, in order.
pub open spec fn binding_spans(bs: Seq<SBinding>) -> Seq<Span> {
    bs.map_values(|b: SBinding| b.span)
}

/// The binding spans owed to an `if` condition.
pub open spec fn cond_binding_spans(cond: SExpr) -> Seq<Span> {
    match cond {
        SExpr::LetCond { pat, scrutinee: _, span: _ } => binding_spans(collected_pat(pat)),
        _ => Seq::empty(),
    }
}

/// The spans of every site the rewrite touches in an expression, in
/// the order the rewriter records them: for a reference expression the
/// inner sites first and its own span last, and for an `if let` or a
/// match arm the pattern's binding spans before those of the guarded
/// parts.
pub open spec fn sites_expr(e: SExpr) -> Seq<Span>
    decreases e,
{
    match e {
        SExpr::Ref { mutable: _, span, inner } => sites_expr(*inner) + seq![span],
        SExpr::Erase { span: _, arg } => sites_expr(*arg),
        SExpr::LetCond { pat: _, scrutinee, span: _ } => sites_expr(*scrutinee),
        SExpr::If { cond, then_branch, else_branch, span: _ } => cond_binding_spans(*cond)
            + sites_expr(*cond) + sites_stmts(then_branch) + sites_opt(else_branch),
        SExpr::Match { scrutinee, arms, span: _ } => sites_expr(*scrutinee) + sites_arms(arms),
        SExpr::Block { stmts, span: _ } => sites_stmts(stmts),
        SExpr::Path { name: _, span: _ } => Seq::empty(),
        SExpr::Node { segs, span: _ } => sites_segs(segs),
        SExpr::Atom { text: _, span: _ } => Seq::empty(),
    }
}

/// The sites of an optional expression.
pub open spec fn sites_opt(oe: Option<Box<SExpr>>) -> Seq<Span>
    decreases oe,
{
    match oe {
        Some(e) => sites_expr(*e),
        None => Seq::empty(),
    }
}

/// The sites of a statement list.
pub open spec fn sites_stmts(ss: Seq<SStmt>) -> Seq<Span>
    decreases ss,
{
    if ss.len() == 0 {
        Seq::empty()
    } else {
        sites_stmt(ss[0]) + sites_stmts(ss.drop_first())
    }
}

/// The sites of a statement.
pub open spec fn sites_stmt(s: SStmt) -> Seq<Span>
    decreases s,
{
    match s {
        SStmt::Let { pat: _, init, span: _ } => sites_opt(init),
        SStmt::Expr { expr, semi: _, span: _ } => sites_expr(*expr),
        SStmt::Atom { text: _, span: _ } => Seq::empty(),
    }
}

/// The sites of a list of match arms.
pub open spec fn sites_arms(aa: Seq<SArm>) -> Seq<Span>
    decreases aa,
{
    if aa.len() == 0 {
        Seq::empty()
    } else {
        sites_arm(aa[0]) + sites_arms(aa.drop_first())
    }
}

/// The sites of one match arm: its pattern's binding spans, then the
/// sites of its guard, then those of its body.
pub open spec fn sites_arm(a: SArm) -> Seq<Span>
    decreases a,
{
    binding_spans(collected_pat(a.pat)) + sites_opt(a.guard) + sites_expr(*a.body)
}

/// The sites of a list of template segments.
pub open spec fn sites_segs(gg: Seq<SSeg>) -> Seq<Span>
    decreases gg,
{
    if gg.len() == 0 {
        Seq::empty()
    } else {
        sites_seg(gg[0]) + sites_segs(gg.drop_first())
    }
}

/// The sites of one template segment.
pub open spec fn sites_seg(g: SSeg) -> Seq<Span>
    decreases g,
{
    match g {
        SSeg::Text(_) => Seq::empty(),
        SSeg::Child(e) => sites_expr(*e),
    }
}

/// The sites of an item.
pub open spec fn sites_item(it: SItem) -> Seq<Span>
    decreases it,
{
    match it {
        SItem::Fn { sig: _, body, span: _ } => sites_stmts(body),
        SItem::Group { header: _, items, span: _ } => sites_items(items),
        SItem::Atom { text: _, span: _ } => Seq::empty(),
    }
}

/// The sites of an item list.
pub open spec fn sites_items(ii: Seq<SItem>) -> Seq<Span>
    decreases ii,
{
    if ii.len() == 0 {
        Seq::empty()
    } else {
        sites_item(ii[0]) + sites_items(ii.drop_first())
    }
}

/// The sites of a whole file.
pub open spec fn sites_file(f: SFile) -> Seq<Span> {
    sites_items(f.items)
}

/// The sites of a transformation unit.
pub open spec fn sites_tree(t: STree) -> Seq<Span> {
    match t {
        STree::File(f) => sites_file(f),
        STree::Expr(e) => sites_expr(e),
        STree::Stmt(s) => sites_stmt(s),
    }
}

// ---------------------------------------------------------------------
// Erasure-call counting, as a ghost function
// ---------------------------------------------------------------------

/// How many erasure calls an expression contains.
pub open spec fn erasures_expr(e: SExpr) -> nat
    decreases e,
{
    match e {
        SExpr::Ref { mutable: _, span: _, inner } => erasures_expr(*inner),
        SExpr::Erase { span: _, arg } => 1 + erasures_expr(*arg),
        SExpr::LetCond { pat: _, scrutinee, span: _ } => erasures_expr(*scrutinee),
        SExpr::If { cond, then_branch, else_branch, span: _ } => erasures_expr(*cond)
            + erasures_stmts(then_branch) + erasures_opt(else_branch),
        SExpr::Match { scrutinee, arms, span: _ } => erasures_expr(*scrutinee) + erasures_arms(
            arms,
        ),
        SExpr::Block { stmts, span: _ } => erasures_stmts(stmts),
        SExpr::Path { name: _, span: _ } => 0,
        SExpr::Node { segs, span: _ } => erasures_segs(segs),
        SExpr::Atom { text: _, span: _ } => 0,
    }
}

/// How many erasure calls an optional expression contains.
pub open spec fn erasures_opt(oe: Option<Box<SExpr>>) -> nat
    decreases oe,
{
    match oe {
        Some(e) => erasures_expr(*e),
        None => 0,
    }
}

/// How many erasure calls a statement list contains.
pub open spec fn erasures_stmts(ss: Seq<SStmt>) -> nat
    decreases ss,
{
    if ss.len() == 0 {
        0
    } else {
        erasures_stmt(ss[0]) + erasures_stmts(ss.drop_first())
    }
}

/// How many erasure calls a statement contains.
pub open spec fn erasures_stmt(s: SStmt) -> nat
    decreases s,
{
    match s {
        SStmt::Let { pat: _, init, span: _ } => erasures_opt(init),
        SStmt::Expr { expr, semi: _, span: _ } => erasures_expr(*expr),
        SStmt::Atom { text: _, span: _ } => 0,
    }
}

/// How many erasure calls a list of match arms contains.
pub open spec fn erasures_arms(aa: Seq<SArm>) -> nat
    decreases aa,
{
    if aa.len() == 0 {
        0
    } else {
        erasures_arm(aa[0]) + erasures_arms(aa.drop_first())
    }
}

/// How many erasure calls one match arm contains.
pub open spec fn erasures_arm(a: SArm) -> nat
    decreases a,
{
    erasures_opt(a.guard) + erasures_expr(*a.body)
}

/// How many erasure calls a list of template segments contains.
pub open spec fn erasures_segs(gg: Seq<SSeg>) -> nat
    decreases gg,
{
    if gg.len() == 0 {
        0
    } else {
        erasures_seg(gg[0]) + erasures_segs(gg.drop_first())
    }
}

/// How many erasure calls one template segment contains.
pub open spec fn erasures_seg(g: SSeg) -> nat
    decreases g,
{
    match g {
        SSeg::Text(_) => 0,
        SSeg::Child(e) => erasures_expr(*e),
    }
}

/// How many erasure calls an item contains.
pub open spec fn erasures_item(it: SItem) -> nat
    decreases it,
{
    match it {
        SItem::Fn { sig: _, body, span: _ } => erasures_stmts(body),
        SItem::Group { header: _, items, span: _ } => erasures_items(items),
        SItem::Atom { text: _, span: _ } => 0,
    }
}

/// How many erasure calls an item list contains.
pub open spec fn erasures_items(ii: Seq<SItem>) -> nat
    decreases ii,
{
    if ii.len() == 0 {
        0
    } else {
        erasures_item(ii[0]) + erasures_items(ii.drop_first())
    }
}

/// How many erasure calls a whole file contains.
pub open spec fn erasures_file(f: SFile) -> nat {
    erasures_items(f.items)
}

/// How many erasure calls a transformation unit contains.
pub open spec fn erasures_tree(t: STree) -> nat {
    match t {
        STree::File(f) => erasures_file(f),
        STree::Expr(e) => erasures_expr(e),
        STree::Stmt(s) => erasures_stmt(s),
    }
}

// ---------------------------------------------------------------------
// The rewriter
// ---------------------------------------------------------------------

/// Splitting a statement list splits its view.
pub proof fn lemma_view_stmts_add(a: Seq<Stmt>, b: Seq<Stmt>)
    ensures
        view_stmts(a + b) == view_stmts(a) + view_stmts(b),
    decreases a,
{
    if a.len() == 0 {
        assert(a + b =~= b);
        assert(view_stmts(a) + view_stmts(b) =~= view_stmts(b));
    } else {
        lemma_view_stmts_add(a.drop_first(), b);
        assert((a + b).len() > 0);
        assert((a + b)[0] == a[0]);
        assert((a + b).drop_first() =~= a.drop_first() + b);
        assert(view_stmts(a + b) =~= view_stmts(a) + view_stmts(b));
    }
}

/// A statement list and its view have the same length.
pub proof fn lemma_view_stmts_len(s: Seq<Stmt>)
    ensures
        view_stmts(s).len() == s.len(),
    decreases s,
{
    if s.len() > 0 {
        lemma_view_stmts_len(s.drop_first());
    }
}

/// The view of a one-statement list.
pub proof fn lemma_view_stmts_one(s: Seq<Stmt>)
    requires
        s.len() == 1,
    ensures
        view_stmts(s) == seq![view_stmt(s[0])],
{
    assert(s.drop_first() =~= Seq::<Stmt>::empty());
    assert(view_stmts(Seq::<Stmt>::empty()) == Seq::<SStmt>::empty());
    assert(view_stmts(s) =~= seq![view_stmt(s[0])]);
}

/// The view of a two-statement list.
pub proof fn lemma_view_stmts_two(s: Seq<Stmt>)
    requires
        s.len() == 2,
    ensures
        view_stmts(s) == seq![view_stmt(s[0]), view_stmt(s[1])],
{
    lemma_view_stmts_one(s.drop_first());
    assert(s.drop_first()[0] == s[1]);
    assert(view_stmts(s) =~= seq![view_stmt(s[0]), view_stmt(s[1])]);
}

/// The hidden temporary's name, as a string.
pub fn temp_ident() -> (s: String)
    ensures
        s@ == temp_name(),
{
    "__ref".to_owned()
}

/// Builds the re-binding prologue for the collected bindings `bs`, in
/// order, and records each binding's span as a rewritten site.
pub fn build_prologue(bs: &[Binding], spans: &mut Vec<Span>) -> (r: Vec<Stmt>)
    ensures
        view_stmts(r@) == prologue(bindings_view(bs@)),
        final(spans)@ == old(spans)@ + binding_spans(bindings_view(bs@)),
    decreases bs@,
{
    if bs.len() == 0 {
        let r: Vec<Stmt> = Vec::new();
        proof {
            assert(view_stmts(r@) =~= prologue(bindings_view(bs@)));
            assert(spans@ =~= old(spans)@ + binding_spans(bindings_view(bs@)));
        }
        r
    } else {
        let b0 = slice_index_get(bs, 0);
        spans.push(b0.span);
        let path_e = Expr::Path { name: b0.name.clone(), span: b0.span };
        let erase_e = Expr::Erase { span: b0.span, arg: Box::new(path_e) };
        let st = Stmt::Let {
            pat: Pat::Binding {
                by_ref: false,
                mutable: false,
                name: b0.name.clone(),
                span: b0.span,
                sub: None,
            },
            init: Some(Box::new(erase_e)),
            span: b0.span,
        };
        let rest = slice_subrange(bs, 1, bs.len());
        proof {
            assert(view_expr(path_e) == (SExpr::Path { name: b0.name@, span: b0.span }));
            assert(view_expr(erase_e) == (SExpr::Erase {
                span: b0.span,
                arg: Box::new(SExpr::Path { name: b0.name@, span: b0.span }),
            }));
            assert(rest@ =~= bs@.drop_first());
        }
        let mut out = build_prologue(rest, spans);
        let ghost outv: Seq<Stmt> = out@;
        out.insert(0, st);
        proof {
            assert(view_stmt(st) == erase_binding_stmt(bs@[0]@));
            assert(out@ =~= seq![st] + outv);
            assert(out@[0] == st);
            assert(out@.drop_first() =~= outv);
            assert(view_stmts(out@) =~= seq![view_stmt(st)] + view_stmts(outv));
            assert(bindings_view(bs@)[0] == bs@[0]@);
            assert forall|i: int| 1 <= i < bs@.len() implies bindings_view(rest@)[i - 1]
                == bindings_view(bs@)[i] by {
                assert(rest@[i - 1] == bs@[i]);
            }
            lemma_view_stmts_len(outv);
            assert(view_stmts(out@) =~= prologue(bindings_view(bs@)));
            assert(spans@ =~= old(spans)@ + binding_spans(bindings_view(bs@)));
        }
        out
    }
}

/// Rewrites an optional expression.
pub fn rewrite_opt(oe: Option<Box<Expr>>, spans: &mut Vec<Span>) -> (r: Option<Box<Expr>>)
    ensures
        view_opt(r) == rewritten_opt(view_opt(oe)),
        final(spans)@ == old(spans)@ + sites_opt(view_opt(oe)),
    decreases oe,
{
    match oe {
        Some(b) => {
            let r2 = rewrite_expr(*b, spans);
            Some(Box::new(r2))
        },
        None => {
            proof {
                assert(spans@ =~= old(spans)@ + sites_opt(view_opt(None::<Box<Expr>>)));
            }
            None
        },
    }
}

/// Rewrites one expression: the post-order fold at the heart of the
/// transformation. Appends the span of every rewritten site to
/// `spans`, in the order the sites are rewritten.
pub fn rewrite_expr(e: Expr, spans: &mut Vec<Span>) -> (r: Expr)
    ensures
        r@ == rewritten_expr(e@),
        final(spans)@ == old(spans)@ + sites_expr(e@),
    decreases e,
{
    match e {
        Expr::Ref { mutable, span, inner } => {
            let i2 = rewrite_expr(*inner, spans);
            spans.push(span);
            let mut stmts: Vec<Stmt> = Vec::new();
            stmts.push(
                Stmt::Let {
                    pat: Pat::Binding {
                        by_ref: false,
                        mutable: false,
                        name: temp_ident(),
                        span,
                        sub: None,
                    },
                    init: Some(Box::new(Expr::Ref { mutable, span, inner: Box::new(i2) })),
                    span,
                },
            );
            stmts.push(
                Stmt::Expr {
                    expr: Box::new(
                        Expr::Erase {
                            span,
                            arg: Box::new(Expr::Path { name: temp_ident(), span }),
                        },
                    ),
                    semi: false,
                    span,
                },
            );
            let r = Expr::Block { stmts, span };
            proof {
                assert(stmts@.len() == 2);
                lemma_view_stmts_two(stmts@);
                assert(view_stmts(stmts@) =~= (wrap_in_erasure(
                    mutable,
                    span,
                    rewritten_expr(view_expr(*inner)),
                ))->Block_stmts);
                assert(r@ =~= wrap_in_erasure(mutable, span, rewritten_expr(view_expr(*inner))));
                assert(spans@ =~= old(spans)@ + sites_expr(e@));
            }
            r
        },
        Expr::Erase { span, arg } => {
            let a2 = rewrite_expr(*arg, spans);
            Expr::Erase { span, arg: Box::new(a2) }
        },
        Expr::LetCond { pat, scrutinee, span } => {
            let s2 = rewrite_expr(*scrutinee, spans);
            Expr::LetCond { pat, scrutinee: Box::new(s2), span }
        },
        Expr::If { cond, then_branch, else_branch, span } => {
            let pro: Vec<Stmt> = match &*cond {
                Expr::LetCond { pat, scrutinee: _, span: _ } => {
                    let bs = collect_refs(pat);
                    build_prologue(bs.as_slice(), spans)
                },
                _ => Vec::new(),
            };
            proof {
                assert(view_stmts(pro@) == cond_prologue(view_expr(*cond)));
                assert(spans@ =~= old(spans)@ + cond_binding_spans(view_expr(*cond)));
            }
            let c2 = rewrite_expr(*cond, spans);
            let mut body = pro;
            let mut t2 = rewrite_stmts(then_branch, spans);
            let ghost t2v: Seq<Stmt> = t2@;
            let ghost prov: Seq<Stmt> = body@;
            body.append(&mut t2);
            let e2 = rewrite_opt(else_branch, spans);
            let r = Expr::If { cond: Box::new(c2), then_branch: body, else_branch: e2, span };
            proof {
                lemma_view_stmts_add(prov, t2v);
                assert(r@ =~= rewritten_expr(e@));
                assert(spans@ =~= old(spans)@ + sites_expr(e@));
            }
            r
        },
        Expr::Match { scrutinee, arms, span } => {
            let s2 = rewrite_expr(*scrutinee, spans);
            let a2 = rewrite_arms(arms, spans);
            let r = Expr::Match { scrutinee: Box::new(s2), arms: a2, span };
            proof {
                assert(r@ =~= rewritten_expr(e@));
                assert(spans@ =~= old(spans)@ + sites_expr(e@));
            }
            r
        },
        Expr::Block { stmts, span } => {
            let s2 = rewrite_stmts(stmts, spans);
            Expr::Block { stmts: s2, span }
        },
        Expr::Path { name, span } => {
            proof {
                assert(spans@ =~= old(spans)@ + sites_expr(e@));
            }
            Expr::Path { name, span }
        },
        Expr::Node { segs, span } => {
            let g2 = rewrite_segs(segs, spans);
            Expr::Node { segs: g2, span }
        },
        Expr::Atom { text, span } => {
            proof {
                assert(spans@ =~= old(spans)@ + sites_expr(e@));
            }
            Expr::Atom { text, span }
        },
    }
}

/// Rewrites a statement list, statement by statement, in order.
pub fn rewrite_stmts(input: Vec<Stmt>, spans: &mut Vec<Span>) -> (r: Vec<Stmt>)
    ensures
        view_stmts(r@) == rewritten_stmts(view_stmts(input@)),
        final(spans)@ == old(spans)@ + sites_stmts(view_stmts(input@)),
    decreases input@,
{
    let mut rest = input;
    if rest.len() == 0 {
        let r: Vec<Stmt> = Vec::new();
        proof {
            assert(view_stmts(r@) =~= rewritten_stmts(view_stmts(rest@)));
            assert(spans@ =~= old(spans)@ + sites_stmts(view_stmts(rest@)));
        }
        r
    } else {
        let first = rest.remove(0);
        proof {
            assert(rest@ =~= input@.drop_first());
        }
        let f2 = rewrite_stmt(first, spans);
        let mut out = rewrite_stmts(rest, spans);
        let ghost outv: Seq<Stmt> = out@;
        out.insert(0, f2);
        proof {
            assert(out@ =~= seq![f2] + outv);
            assert(out@[0] == f2);
            assert(out@.drop_first() =~= outv);
            assert(view_stmts(out@) =~= seq![view_stmt(f2)] + view_stmts(outv));
            let x = view_stmts(input@);
            assert(x == seq![view_stmt(input@[0])] + view_stmts(input@.drop_first()));
            assert(x.len() > 0);
            assert(x[0] == view_stmt(input@[0]));
            assert(x.drop_first() =~= view_stmts(input@.drop_first()));
            assert(rewritten_stmts(x) == seq![rewritten_stmt(x[0])] + rewritten_stmts(
                x.drop_first(),
            ));
            assert(sites_stmts(x) == sites_stmt(x[0]) + sites_stmts(x.drop_first()));
            assert(view_stmts(out@) =~= rewritten_stmts(x));
            assert(spans@ =~= old(spans)@ + sites_stmts(x));
        }
        out
    }
}

/// Rewrites one statement.
pub fn rewrite_stmt(s: Stmt, spans: &mut Vec<Span>) -> (r: Stmt)
    ensures
        r@ == rewritten_stmt(s@),
        final(spans)@ == old(spans)@ + sites_stmt(s@),
    decreases s,
{
    match s {
        Stmt::Let { pat, init, span } => {
            let i2 = rewrite_opt(init, spans);
            Stmt::Let { pat, init: i2, span }
        },
        Stmt::Expr { expr, semi, span } => {
            let e2 = rewrite_expr(*expr, spans);
            Stmt::Expr { expr: Box::new(e2), semi, span }
        },
        Stmt::Atom { text, span } => {
            proof {
                assert(spans@ =~= old(spans)@ + sites_stmt(s@));
            }
            Stmt::Atom { text, span }
        },
    }
}

/// Rewrites the arms of a `match`, in order, each on its own.
pub fn rewrite_arms(input: Vec<Arm>, spans: &mut Vec<Span>) -> (r: Vec<Arm>)
    ensures
        view_arms(r@) == rewritten_arms(view_arms(input@)),
        final(spans)@ == old(spans)@ + sites_arms(view_arms(input@)),
    decreases input@,
{
    let mut rest = input;
    if rest.len() == 0 {
        let r: Vec<Arm> = Vec::new();
        proof {
            assert(view_arms(r@) =~= rewritten_arms(view_arms(rest@)));
            assert(spans@ =~= old(spans)@ + sites_arms(view_arms(rest@)));
        }
        r
    } else {
        let first = rest.remove(0);
        proof {
            assert(rest@ =~= input@.drop_first());
        }
        let f2 = rewrite_arm(first, spans);
        let mut out = rewrite_arms(rest, spans);
        let ghost outv: Seq<Arm> = out@;
        out.insert(0, f2);
        proof {
            assert(out@ =~= seq![f2] + outv);
            assert(out@[0] == f2);
            assert(out@.drop_first() =~= outv);
            assert(view_arms(out@) =~= seq![view_arm(f2)] + view_arms(outv));
            let x = view_arms(input@);
            assert(x == seq![view_arm(input@[0])] + view_arms(input@.drop_first()));
            assert(x.len() > 0);
            assert(x[0] == view_arm(input@[0]));
            assert(x.drop_first() =~= view_arms(input@.drop_first()));
            assert(rewritten_arms(x) == seq![rewritten_arm(x[0])] + rewritten_arms(
                x.drop_first(),
            ));
            assert(sites_arms(x) == sites_arm(x[0]) + sites_arms(x.drop_first()));
            assert(view_arms(out@) =~= rewritten_arms(x));
            assert(spans@ =~= old(spans)@ + sites_arms(x));
        }
        out
    }
}

/// Rewrites one `match` arm: collects the by-reference bindings of its
/// pattern, records their spans, rewrites guard and body, and when any
/// binding was collected wraps the body in a block that first re-binds
/// each collected name through the erasure call.
pub fn rewrite_arm(a: Arm, spans: &mut Vec<Span>) -> (r: Arm)
    ensures
        r@ == rewritten_arm(a@),
        final(spans)@ == old(spans)@ + sites_arm(a@),
    decreases a,
{
    let Arm { pat, guard, body, span } = a;
    let bs = collect_refs(&pat);
    let pro = build_prologue(bs.as_slice(), spans);
    let g2 = rewrite_opt(guard, spans);
    let b2 = rewrite_expr(*body, spans);
    proof {
        assert(bindings_view(bs@) == collected_pat(view_pat(pat)));
        lemma_view_stmts_len(pro@);
        assert(pro@.len() == bindings_view(bs@).len());
    }
    let new_body: Expr = if pro.len() == 0 {
        b2
    } else {
        let mut stmts = pro;
        let tail = Stmt::Expr { expr: Box::new(b2), semi: false, span };
        proof {
            assert(stmts@.push(tail) =~= stmts@ + seq![tail]);
            lemma_view_stmts_add(stmts@, seq![tail]);
            lemma_view_stmts_one(seq![tail]);
        }
        stmts.push(tail);
        Expr::Block { stmts, span }
    };
    let r = Arm { pat, guard: g2, body: Box::new(new_body), span };
    proof {
        assert(r@ =~= rewritten_arm(a@));
        assert(spans@ =~= old(spans)@ + sites_arm(a@));
    }
    r
}

/// Rewrites a list of template segments.
pub fn rewrite_segs(input: Vec<Seg>, spans: &mut Vec<Span>) -> (r: Vec<Seg>)
    ensures
        view_segs(r@) == rewritten_segs(view_segs(input@)),
        final(spans)@ == old(spans)@ + sites_segs(view_segs(input@)),
    decreases input@,
{
    let mut rest = input;
    if rest.len() == 0 {
        let r: Vec<Seg> = Vec::new();
        proof {
            assert(view_segs(r@) =~= rewritten_segs(view_segs(rest@)));
            assert(spans@ =~= old(spans)@ + sites_segs(view_segs(rest@)));
        }
        r
    } else {
        let first = rest.remove(0);
        proof {
            assert(rest@ =~= input@.drop_first());
        }
        let f2 = rewrite_seg(first, spans);
        let mut out = rewrite_segs(rest, spans);
        let ghost outv: Seq<Seg> = out@;
        out.insert(0, f2);
        proof {
            assert(out@ =~= seq![f2] + outv);
            assert(out@[0] == f2);
            assert(out@.drop_first() =~= outv);
            assert(view_segs(out@) =~= seq![view_seg(f2)] + view_segs(outv));
            let x = view_segs(input@);
            assert(x == seq![view_seg(input@[0])] + view_segs(input@.drop_first()));
            assert(x.len() > 0);
            assert(x[0] == view_seg(input@[0]));
            assert(x.drop_first() =~= view_segs(input@.drop_first()));
            assert(rewritten_segs(x) == seq![rewritten_seg(x[0])] + rewritten_segs(
                x.drop_first(),
            ));
            assert(sites_segs(x) == sites_seg(x[0]) + sites_segs(x.drop_first()));
            assert(view_segs(out@) =~= rewritten_segs(x));
            assert(spans@ =~= old(spans)@ + sites_segs(x));
        }
        out
    }
}

/// Rewrites one template segment.
pub fn rewrite_seg(g: Seg, spans: &mut Vec<Span>) -> (r: Seg)
    ensures
        r@ == rewritten_seg(g@),
        final(spans)@ == old(spans)@ + sites_seg(g@),
    decreases g,
{
    match g {
        Seg::Text(t) => {
            proof {
                assert(spans@ =~= old(spans)@ + sites_seg(g@));
            }
            Seg::Text(t)
        },
        Seg::Child(e) => {
            let e2 = rewrite_expr(*e, spans);
            Seg::Child(Box::new(e2))
        },
    }
}

/// Rewrites one item.
pub fn rewrite_item(it: Item, spans: &mut Vec<Span>) -> (r: Item)
    ensures
        r@ == rewritten_item(it@),
        final(spans)@ == old(spans)@ + sites_item(it@),
    decreases it,
{
    match it {
        Item::Fn { sig, body, span } => {
            let b2 = rewrite_stmts(body, spans);
            Item::Fn { sig, body: b2, span }
        },
        Item::Group { header, items, span } => {
            let i2 = rewrite_items(items, spans);
            Item::Group { header, items: i2, span }
        },
        Item::Atom { text, span } => {
            proof {
                assert(spans@ =~= old(spans)@ + sites_item(it@));
            }
            Item::Atom { text, span }
        },
    }
}

/// Rewrites an item list, item by item, in order.
pub fn rewrite_items(input: Vec<Item>, spans: &mut Vec<Span>) -> (r: Vec<Item>)
    ensures
        view_items(r@) == rewritten_items(view_items(input@)),
        final(spans)@ == old(spans)@ + sites_items(view_items(input@)),
    decreases input@,
{
    let mut rest = input;
    if rest.len() == 0 {
        let r: Vec<Item> = Vec::new();
        proof {
            assert(view_items(r@) =~= rewritten_items(view_items(rest@)));
            assert(spans@ =~= old(spans)@ + sites_items(view_items(rest@)));
        }
        r
    } else {
        let first = rest.remove(0);
        proof {
            assert(rest@ =~= input@.drop_first());
        }
        let f2 = rewrite_item(first, spans);
        let mut out = rewrite_items(rest, spans);
        let ghost outv: Seq<Item> = out@;
        out.insert(0, f2);
        proof {
            assert(out@ =~= seq![f2] + outv);
            assert(out@[0] == f2);
            assert(out@.drop_first() =~= outv);
            assert(view_items(out@) =~= seq![view_item(f2)] + view_items(outv));
            let x = view_items(input@);
            assert(x == seq![view_item(input@[0])] + view_items(input@.drop_first()));
            assert(x.len() > 0);
            assert(x[0] == view_item(input@[0]));
            assert(x.drop_first() =~= view_items(input@.drop_first()));
            assert(rewritten_items(x) == seq![rewritten_item(x[0])] + rewritten_items(
                x.drop_first(),
            ));
            assert(sites_items(x) == sites_item(x[0]) + sites_items(x.drop_first()));
            assert(view_items(out@) =~= rewritten_items(x));
            assert(spans@ =~= old(spans)@ + sites_items(x));
        }
        out
    }
}

/// Rewrites a whole file.
pub fn rewrite_file(f: File, spans: &mut Vec<Span>) -> (r: File)
    ensures
        r@ == rewritten_file(f@),
        final(spans)@ == old(spans)@ + sites_file(f@),
{
    let File { items } = f;
    let i2 = rewrite_items(items, spans);
    File { items: i2 }
}

/// Rewrites one transformation unit, at whichever granularity it holds.
pub fn rewrite_tree(t: Tree, spans: &mut Vec<Span>) -> (r: Tree)
    ensures
        r@ == rewritten_tree(t@),
        final(spans)@ == old(spans)@ + sites_tree(t@),
{
    match t {
        Tree::File(f) => Tree::File(rewrite_file(f, spans)),
        Tree::Expr(e) => Tree::Expr(rewrite_expr(e, spans)),
        Tree::Stmt(s) => Tree::Stmt(rewrite_stmt(s, spans)),
    }
}

} // verus!
