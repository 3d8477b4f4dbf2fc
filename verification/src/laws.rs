//! The laws of the transformation, each stated over the ghost
//! functions that the rewriter's contracts speak of, and proved once
//! and for all trees.

use vstd::prelude::*;
use crate::ast::SArm;
use crate::ast::SExpr;
use crate::ast::SFile;
use crate::ast::SItem;
use crate::ast::SSeg;
use crate::ast::SStmt;
use crate::ast::STree;
use crate::ast::SPat;
use crate::ast::Span;
use crate::collect::SBinding;
use crate::collect::collected_pat;
use crate::rewrite::erase_binding_stmt;
use crate::rewrite::erasures_arm;
use crate::rewrite::erasures_arms;
use crate::rewrite::erasures_expr;
use crate::rewrite::erasures_file;
use crate::rewrite::erasures_item;
use crate::rewrite::erasures_items;
use crate::rewrite::erasures_opt;
use crate::rewrite::erasures_seg;
use crate::rewrite::erasures_segs;
use crate::rewrite::erasures_stmt;
use crate::rewrite::erasures_stmts;
use crate::rewrite::erasures_tree;
use crate::rewrite::temp_name;
use crate::rewrite::wrap_in_erasure;
use crate::rewrite::binding_spans;
use crate::rewrite::cond_binding_spans;
use crate::rewrite::cond_prologue;
use crate::rewrite::prologue;
use crate::rewrite::rewritten_arm;
use crate::rewrite::rewritten_arms;
use crate::rewrite::rewritten_expr;
use crate::rewrite::rewritten_file;
use crate::rewrite::rewritten_item;
use crate::rewrite::rewritten_items;
use crate::rewrite::rewritten_opt;
use crate::rewrite::rewritten_seg;
use crate::rewrite::rewritten_segs;
use crate::rewrite::rewritten_stmt;
use crate::rewrite::rewritten_stmts;
use crate::rewrite::rewritten_tree;
use crate::rewrite::sites_arm;
use crate::rewrite::sites_arms;
use crate::rewrite::sites_expr;
use crate::rewrite::sites_file;
use crate::rewrite::sites_item;
use crate::rewrite::sites_items;
use crate::rewrite::sites_opt;
use crate::rewrite::sites_seg;
use crate::rewrite::sites_segs;
use crate::rewrite::sites_stmt;
use crate::rewrite::sites_stmts;
use crate::rewrite::sites_tree;

verus! {

// ---------------------------------------------------------------------
// Structural idempotence: a tree without reference-forming sites is
// returned unchanged.
// ---------------------------------------------------------------------

/// A tree that contains no reference-forming expression and no
/// by-reference binding reachable through an `if let` condition or a
/// `match` arm pattern — that is, a tree without rewritten sites — is
/// rewritten to itself, unchanged.
pub proof fn law_identity_tree(t: STree)
    requires
        sites_tree(t).len() == 0,
    ensures
        rewritten_tree(t) == t,
{
    match t {
        STree::File(f) => {
            law_identity_file(f);
        },
        STree::Expr(e) => {
            law_identity_expr(e);
        },
        STree::Stmt(s) => {
            law_identity_stmt(s);
        },
    }
}

/// Structural idempotence, for a whole file.
pub proof fn law_identity_file(f: SFile)
    requires
        sites_file(f).len() == 0,
    ensures
        rewritten_file(f) == f,
{
    law_identity_items(f.items);
}

/// Structural idempotence, for an expression.
pub proof fn law_identity_expr(e: SExpr)
    requires
        sites_expr(e).len() == 0,
    ensures
        rewritten_expr(e) == e,
    decreases e,
{
    match e {
        SExpr::Ref { mutable: _, span: _, inner: _ } => {
            assert(false);
        },
        SExpr::Erase { span: _, arg } => {
            law_identity_expr(*arg);
        },
        SExpr::LetCond { pat: _, scrutinee, span: _ } => {
            law_identity_expr(*scrutinee);
        },
        SExpr::If { cond, then_branch, else_branch, span: _ } => {
            law_identity_expr(*cond);
            law_identity_stmts(then_branch);
            law_identity_opt(else_branch);
            match *cond {
                SExpr::LetCond { pat, scrutinee: _, span: _ } => {
                    assert(binding_spans(collected_pat(pat)).len() == 0);
                    assert(collected_pat(pat).len() == 0);
                    assert(cond_prologue(*cond) =~= Seq::<SStmt>::empty());
                },
                _ => {
                    assert(cond_prologue(*cond) =~= Seq::<SStmt>::empty());
                },
            }
            assert(cond_prologue(*cond) + rewritten_stmts(then_branch) =~= then_branch);
        },
        SExpr::Match { scrutinee, arms, span: _ } => {
            law_identity_expr(*scrutinee);
            law_identity_arms(arms);
        },
        SExpr::Block { stmts, span: _ } => {
            law_identity_stmts(stmts);
        },
        SExpr::Path { name: _, span: _ } => {
        },
        SExpr::Node { segs, span: _ } => {
            law_identity_segs(segs);
        },
        SExpr::Atom { text: _, span: _ } => {
        },
    }
}

/// Structural idempotence, for an optional expression.
pub proof fn law_identity_opt(oe: Option<Box<SExpr>>)
    requires
        sites_opt(oe).len() == 0,
    ensures
        rewritten_opt(oe) == oe,
    decreases oe,
{
    match oe {
        Some(e) => {
            law_identity_expr(*e);
        },
        None => {
        },
    }
}

/// Structural idempotence, for a statement list.
pub proof fn law_identity_stmts(ss: Seq<SStmt>)
    requires
        sites_stmts(ss).len() == 0,
    ensures
        rewritten_stmts(ss) == ss,
    decreases ss,
{
    if ss.len() == 0 {
        assert(rewritten_stmts(ss) =~= ss);
    } else {
        law_identity_stmt(ss[0]);
        law_identity_stmts(ss.drop_first());
        assert(rewritten_stmts(ss) =~= ss);
    }
}

/// Structural idempotence, for a statement.
pub proof fn law_identity_stmt(s: SStmt)
    requires
        sites_stmt(s).len() == 0,
    ensures
        rewritten_stmt(s) == s,
    decreases s,
{
    match s {
        SStmt::Let { pat: _, init, span: _ } => {
            law_identity_opt(init);
        },
        SStmt::Expr { expr, semi: _, span: _ } => {
            law_identity_expr(*expr);
        },
        SStmt::Atom { text: _, span: _ } => {
        },
    }
}

/// Structural idempotence, for a list of match arms.
pub proof fn law_identity_arms(aa: Seq<SArm>)
    requires
        sites_arms(aa).len() == 0,
    ensures
        rewritten_arms(aa) == aa,
    decreases aa,
{
    if aa.len() == 0 {
        assert(rewritten_arms(aa) =~= aa);
    } else {
        law_identity_arm(aa[0]);
        law_identity_arms(aa.drop_first());
        assert(rewritten_arms(aa) =~= aa);
    }
}

/// Structural idempotence, for one match arm.
pub proof fn law_identity_arm(a: SArm)
    requires
        sites_arm(a).len() == 0,
    ensures
        rewritten_arm(a) == a,
    decreases a,
{
    assert(binding_spans(collected_pat(a.pat)).len() == 0);
    assert(collected_pat(a.pat).len() == 0);
    law_identity_opt(a.guard);
    law_identity_expr(*a.body);
}

/// Structural idempotence, for a list of template segments.
pub proof fn law_identity_segs(gg: Seq<SSeg>)
    requires
        sites_segs(gg).len() == 0,
    ensures
        rewritten_segs(gg) == gg,
    decreases gg,
{
    if gg.len() == 0 {
        assert(rewritten_segs(gg) =~= gg);
    } else {
        law_identity_seg(gg[0]);
        law_identity_segs(gg.drop_first());
        assert(rewritten_segs(gg) =~= gg);
    }
}

/// Structural idempotence, for one template segment.
pub proof fn law_identity_seg(g: SSeg)
    requires
        sites_seg(g).len() == 0,
    ensures
        rewritten_seg(g) == g,
    decreases g,
{
    match g {
        SSeg::Text(_) => {
        },
        SSeg::Child(e) => {
            law_identity_expr(*e);
        },
    }
}

/// Structural idempotence, for an item.
pub proof fn law_identity_item(it: SItem)
    requires
        sites_item(it).len() == 0,
    ensures
        rewritten_item(it) == it,
    decreases it,
{
    match it {
        SItem::Fn { sig: _, body, span: _ } => {
            law_identity_stmts(body);
        },
        SItem::Group { header: _, items, span: _ } => {
            law_identity_items(items);
        },
        SItem::Atom { text: _, span: _ } => {
        },
    }
}

/// Structural idempotence, for an item list.
pub proof fn law_identity_items(ii: Seq<SItem>)
    requires
        sites_items(ii).len() == 0,
    ensures
        rewritten_items(ii) == ii,
    decreases ii,
{
    if ii.len() == 0 {
        assert(rewritten_items(ii) =~= ii);
    } else {
        law_identity_item(ii[0]);
        law_identity_items(ii.drop_first());
        assert(rewritten_items(ii) =~= ii);
    }
}

/// A tree without rewritten sites renders, after the rewrite, to
/// exactly the text it rendered to before: the rewrite is textually
/// the identity there, not only structurally.
pub proof fn law_identity_text(t: STree)
    requires
        sites_tree(t).len() == 0,
    ensures
        crate::print::render_tree(rewritten_tree(t)) == crate::print::render_tree(t),
{
    law_identity_tree(t);
}

// ---------------------------------------------------------------------
// Coverage: rewriting adds exactly one erasure call per site.
// ---------------------------------------------------------------------

/// Splitting a statement list splits its erasure-call count.
proof fn lemma_erasures_stmts_add(a: Seq<SStmt>, b: Seq<SStmt>)
    ensures
        erasures_stmts(a + b) == erasures_stmts(a) + erasures_stmts(b),
    decreases a,
{
    if a.len() == 0 {
        assert(a + b =~= b);
    } else {
        lemma_erasures_stmts_add(a.drop_first(), b);
        assert((a + b)[0] == a[0]);
        assert((a + b).drop_first() =~= a.drop_first() + b);
    }
}

/// A re-binding prologue holds exactly one erasure call per binding.
proof fn lemma_erasures_prologue(bs: Seq<SBinding>)
    ensures
        erasures_stmts(prologue(bs)) == bs.len(),
    decreases bs,
{
    if bs.len() == 0 {
        assert(prologue(bs) =~= Seq::<SStmt>::empty());
    } else {
        lemma_erasures_prologue(bs.drop_first());
        let b = bs[0];
        assert(erasures_expr(SExpr::Path { name: b.name, span: b.span }) == 0);
        assert(erasures_expr(
            SExpr::Erase {
                span: b.span,
                arg: Box::new(SExpr::Path { name: b.name, span: b.span }),
            },
        ) == 1);
        assert(erasures_stmt(erase_binding_stmt(b)) == 1);
        assert(prologue(bs)[0] == erase_binding_stmt(b));
        assert(prologue(bs).drop_first() =~= prologue(bs.drop_first()));
        assert(prologue(bs).len() > 0);
    }
}

/// Coverage: rewriting a tree yields a tree whose erasure-call count
/// exceeds the input's by exactly the number of rewritten sites — one
/// call per reference-forming expression and one per by-reference
/// binding reachable through an `if let` condition or a `match` arm
/// pattern. On a tree that holds no erasure call yet, the output count
/// equals the site count exactly.
pub proof fn law_coverage_tree(t: STree)
    ensures
        erasures_tree(rewritten_tree(t)) == erasures_tree(t) + sites_tree(t).len(),
{
    match t {
        STree::File(f) => {
            law_coverage_file(f);
        },
        STree::Expr(e) => {
            law_coverage_expr(e);
        },
        STree::Stmt(s) => {
            law_coverage_stmt(s);
        },
    }
}

/// Coverage, for a whole file.
pub proof fn law_coverage_file(f: SFile)
    ensures
        erasures_file(rewritten_file(f)) == erasures_file(f) + sites_file(f).len(),
{
    law_coverage_items(f.items);
}

/// Coverage, for an expression.
pub proof fn law_coverage_expr(e: SExpr)
    ensures
        erasures_expr(rewritten_expr(e)) == erasures_expr(e) + sites_expr(e).len(),
    decreases e,
{
    match e {
        SExpr::Ref { mutable, span, inner } => {
            law_coverage_expr(*inner);
            let ri = rewritten_expr(*inner);
            let ss = (wrap_in_erasure(mutable, span, ri))->Block_stmts;
            assert(erasures_expr(SExpr::Path { name: temp_name(), span }) == 0);
            assert(erasures_expr(
                SExpr::Erase {
                    span,
                    arg: Box::new(SExpr::Path { name: temp_name(), span }),
                },
            ) == 1);
            assert(erasures_expr(SExpr::Ref { mutable, span, inner: Box::new(ri) })
                == erasures_expr(ri));
            assert(ss.len() == 2);
            assert(erasures_stmt(ss[0]) == erasures_expr(ri));
            assert(erasures_stmt(ss[1]) == 1);
            assert(ss.drop_first().drop_first() =~= Seq::<SStmt>::empty());
            assert(erasures_stmts(ss.drop_first().drop_first()) == 0);
            assert(ss.drop_first()[0] == ss[1]);
            assert(erasures_stmts(ss.drop_first()) == 1);
            assert(erasures_stmts(ss) == erasures_expr(ri) + 1);
            assert(sites_expr(e).len() == sites_expr(*inner).len() + 1);
        },
        SExpr::Erase { span: _, arg } => {
            law_coverage_expr(*arg);
        },
        SExpr::LetCond { pat: _, scrutinee, span: _ } => {
            law_coverage_expr(*scrutinee);
        },
        SExpr::If { cond, then_branch, else_branch, span: _ } => {
            law_coverage_expr(*cond);
            law_coverage_stmts(then_branch);
            law_coverage_opt(else_branch);
            match *cond {
                SExpr::LetCond { pat, scrutinee: _, span: _ } => {
                    lemma_erasures_prologue(collected_pat(pat));
                    assert(binding_spans(collected_pat(pat)).len() == collected_pat(pat).len());
                },
                _ => {
                    assert(erasures_stmts(Seq::<SStmt>::empty()) == 0);
                },
            }
            lemma_erasures_stmts_add(cond_prologue(*cond), rewritten_stmts(then_branch));
            assert(erasures_stmts(cond_prologue(*cond)) == cond_binding_spans(*cond).len());
        },
        SExpr::Match { scrutinee, arms, span: _ } => {
            law_coverage_expr(*scrutinee);
            law_coverage_arms(arms);
        },
        SExpr::Block { stmts, span: _ } => {
            law_coverage_stmts(stmts);
        },
        SExpr::Path { name: _, span: _ } => {
        },
        SExpr::Node { segs, span: _ } => {
            law_coverage_segs(segs);
        },
        SExpr::Atom { text: _, span: _ } => {
        },
    }
}

/// Coverage, for an optional expression.
pub proof fn law_coverage_opt(oe: Option<Box<SExpr>>)
    ensures
        erasures_opt(rewritten_opt(oe)) == erasures_opt(oe) + sites_opt(oe).len(),
    decreases oe,
{
    match oe {
        Some(e) => {
            law_coverage_expr(*e);
        },
        None => {
        },
    }
}

/// Coverage, for a statement list.
pub proof fn law_coverage_stmts(ss: Seq<SStmt>)
    ensures
        erasures_stmts(rewritten_stmts(ss)) == erasures_stmts(ss) + sites_stmts(ss).len(),
    decreases ss,
{
    if ss.len() == 0 {
        assert(rewritten_stmts(ss) =~= Seq::<SStmt>::empty());
    } else {
        law_coverage_stmt(ss[0]);
        law_coverage_stmts(ss.drop_first());
        let r = rewritten_stmts(ss);
        assert(r[0] == rewritten_stmt(ss[0]));
        assert(r.drop_first() =~= rewritten_stmts(ss.drop_first()));
        assert(r.len() > 0);
        assert(erasures_stmts(r) == erasures_stmt(r[0]) + erasures_stmts(r.drop_first()));
    }
}

/// Coverage, for a statement.
pub proof fn law_coverage_stmt(s: SStmt)
    ensures
        erasures_stmt(rewritten_stmt(s)) == erasures_stmt(s) + sites_stmt(s).len(),
    decreases s,
{
    match s {
        SStmt::Let { pat: _, init, span: _ } => {
            law_coverage_opt(init);
        },
        SStmt::Expr { expr, semi: _, span: _ } => {
            law_coverage_expr(*expr);
        },
        SStmt::Atom { text: _, span: _ } => {
        },
    }
}

/// Coverage, for a list of match arms.
pub proof fn law_coverage_arms(aa: Seq<SArm>)
    ensures
        erasures_arms(rewritten_arms(aa)) == erasures_arms(aa) + sites_arms(aa).len(),
    decreases aa,
{
    if aa.len() == 0 {
        assert(rewritten_arms(aa) =~= Seq::<SArm>::empty());
    } else {
        law_coverage_arm(aa[0]);
        law_coverage_arms(aa.drop_first());
        let r = rewritten_arms(aa);
        assert(r[0] == rewritten_arm(aa[0]));
        assert(r.drop_first() =~= rewritten_arms(aa.drop_first()));
        assert(r.len() > 0);
        assert(erasures_arms(r) == erasures_arm(r[0]) + erasures_arms(r.drop_first()));
    }
}

/// Coverage, for one match arm.
pub proof fn law_coverage_arm(a: SArm)
    ensures
        erasures_arm(rewritten_arm(a)) == erasures_arm(a) + sites_arm(a).len(),
    decreases a,
{
    law_coverage_opt(a.guard);
    law_coverage_expr(*a.body);
    let bs = collected_pat(a.pat);
    assert(binding_spans(bs).len() == bs.len());
    if bs.len() > 0 {
        lemma_erasures_prologue(bs);
        let tail = SStmt::Expr {
            expr: Box::new(rewritten_expr(*a.body)),
            semi: false,
            span: a.span,
        };
        lemma_erasures_stmts_add(prologue(bs), seq![tail]);
        assert(seq![tail].drop_first() =~= Seq::<SStmt>::empty());
        assert(erasures_stmts(Seq::<SStmt>::empty()) == 0);
        assert(seq![tail][0] == tail);
        assert(erasures_stmts(seq![tail]) == erasures_stmt(tail) + 0);
        assert(erasures_stmt(tail) == erasures_expr(rewritten_expr(*a.body)));
    }
}

/// Coverage, for a list of template segments.
pub proof fn law_coverage_segs(gg: Seq<SSeg>)
    ensures
        erasures_segs(rewritten_segs(gg)) == erasures_segs(gg) + sites_segs(gg).len(),
    decreases gg,
{
    if gg.len() == 0 {
        assert(rewritten_segs(gg) =~= Seq::<SSeg>::empty());
    } else {
        law_coverage_seg(gg[0]);
        law_coverage_segs(gg.drop_first());
        let r = rewritten_segs(gg);
        assert(r[0] == rewritten_seg(gg[0]));
        assert(r.drop_first() =~= rewritten_segs(gg.drop_first()));
        assert(r.len() > 0);
        assert(erasures_segs(r) == erasures_seg(r[0]) + erasures_segs(r.drop_first()));
    }
}

/// Coverage, for one template segment.
pub proof fn law_coverage_seg(g: SSeg)
    ensures
        erasures_seg(rewritten_seg(g)) == erasures_seg(g) + sites_seg(g).len(),
    decreases g,
{
    match g {
        SSeg::Text(_) => {
        },
        SSeg::Child(e) => {
            law_coverage_expr(*e);
        },
    }
}

/// Coverage, for an item.
pub proof fn law_coverage_item(it: SItem)
    ensures
        erasures_item(rewritten_item(it)) == erasures_item(it) + sites_item(it).len(),
    decreases it,
{
    match it {
        SItem::Fn { sig: _, body, span: _ } => {
            law_coverage_stmts(body);
        },
        SItem::Group { header: _, items, span: _ } => {
            law_coverage_items(items);
        },
        SItem::Atom { text: _, span: _ } => {
        },
    }
}

/// Coverage, for an item list.
pub proof fn law_coverage_items(ii: Seq<SItem>)
    ensures
        erasures_items(rewritten_items(ii)) == erasures_items(ii) + sites_items(ii).len(),
    decreases ii,
{
    if ii.len() == 0 {
        assert(rewritten_items(ii) =~= Seq::<SItem>::empty());
    } else {
        law_coverage_item(ii[0]);
        law_coverage_items(ii.drop_first());
        let r = rewritten_items(ii);
        assert(r[0] == rewritten_item(ii[0]));
        assert(r.drop_first() =~= rewritten_items(ii.drop_first()));
        assert(r.len() > 0);
        assert(erasures_items(r) == erasures_item(r[0]) + erasures_items(r.drop_first()));
    }
}

// ---------------------------------------------------------------------
// Nesting order: inner references are wrapped before the outer
// wrapper's temporary captures them.
// ---------------------------------------------------------------------

/// Rewriting a reference expression wraps the rewritten inner
/// expression: the temporary of the replacement block captures a
/// reference to the already-rewritten inner expression, and the
/// erasure call applies to the outermost reference only.
pub proof fn law_reference_wraps_rewritten_inner(mutable: bool, span: Span, inner: SExpr)
    ensures
        rewritten_expr(SExpr::Ref { mutable, span, inner: Box::new(inner) }) == wrap_in_erasure(
            mutable,
            span,
            rewritten_expr(inner),
        ),
{
}

/// For a reference to a reference-containing expression, the inner
/// reference ends up wrapped first, nested inside the temporary
/// binding of the outer wrapper: no rewrite order inversion.
pub proof fn law_nested_references_wrap_inside_out(
    outer_mutable: bool,
    outer_span: Span,
    inner_mutable: bool,
    inner_span: Span,
    base: SExpr,
)
    ensures
        rewritten_expr(
            SExpr::Ref {
                mutable: outer_mutable,
                span: outer_span,
                inner: Box::new(
                    SExpr::Ref {
                        mutable: inner_mutable,
                        span: inner_span,
                        inner: Box::new(base),
                    },
                ),
            },
        ) == wrap_in_erasure(
            outer_mutable,
            outer_span,
            wrap_in_erasure(inner_mutable, inner_span, rewritten_expr(base)),
        ),
{
    assert(rewritten_expr(
        SExpr::Ref { mutable: inner_mutable, span: inner_span, inner: Box::new(base) },
    ) == wrap_in_erasure(inner_mutable, inner_span, rewritten_expr(base)));
}

// ---------------------------------------------------------------------
// Non-interference across match arms.
// ---------------------------------------------------------------------

/// A rewritten arm list has one rewritten arm per input arm.
pub proof fn lemma_rewritten_arms_len(aa: Seq<SArm>)
    ensures
        rewritten_arms(aa).len() == aa.len(),
    decreases aa,
{
    if aa.len() > 0 {
        lemma_rewritten_arms_len(aa.drop_first());
    }
}

/// Each arm of a rewritten arm list is the rewrite of the matching
/// input arm, and of nothing else.
pub proof fn lemma_rewritten_arms_index(aa: Seq<SArm>, i: int)
    requires
        0 <= i < aa.len(),
    ensures
        rewritten_arms(aa).len() == aa.len(),
        rewritten_arms(aa)[i] == rewritten_arm(aa[i]),
    decreases aa,
{
    lemma_rewritten_arms_len(aa);
    if i > 0 {
        lemma_rewritten_arms_index(aa.drop_first(), i - 1);
    }
}

/// Non-interference across arms: in a rewritten `match`, every arm is
/// exactly the rewrite of its own input arm. A by-reference binding in
/// one arm's pattern yields a re-binding inside that arm's body alone;
/// what another arm binds, even under the same name, leaves it
/// untouched.
pub proof fn law_match_arms_independent(scrutinee: Box<SExpr>, arms: Seq<SArm>, span: Span, i: int)
    requires
        0 <= i < arms.len(),
    ensures
        (rewritten_expr(SExpr::Match { scrutinee, arms, span }))->arms.len() == arms.len(),
        (rewritten_expr(SExpr::Match { scrutinee, arms, span }))->arms[i] == rewritten_arm(
            arms[i],
        ),
{
    lemma_rewritten_arms_index(arms, i);
}

/// What rewriting one arm yields: when its pattern holds by-reference
/// bindings, the body becomes a block that first re-binds each
/// collected name through the erasure call, in collection order, and
/// then runs the rewritten original body; with no such binding the
/// body is simply rewritten in place.
pub proof fn law_arm_rebinding_scoped_to_its_arm(a: SArm)
    ensures
        collected_pat(a.pat).len() > 0 ==> rewritten_arm(a).body == Box::new(
            SExpr::Block {
                stmts: prologue(collected_pat(a.pat)) + seq![
                    SStmt::Expr {
                        expr: Box::new(rewritten_expr(*a.body)),
                        semi: false,
                        span: a.span,
                    },
                ],
                span: a.span,
            },
        ),
        collected_pat(a.pat).len() == 0 ==> rewritten_arm(a).body == Box::new(
            rewritten_expr(*a.body),
        ),
        rewritten_arm(a).pat == a.pat,
{
}

// ---------------------------------------------------------------------
// Conditional-match rule.
// ---------------------------------------------------------------------

/// Rewriting an `if` whose condition is a pattern match prepends one
/// re-binding per collected by-reference binding of the condition's
/// pattern, in collection order, to the rewritten branch body.
pub proof fn law_if_let_prologue(
    pat: SPat,
    scrutinee: Box<SExpr>,
    cond_span: Span,
    then_branch: Seq<SStmt>,
    else_branch: Option<Box<SExpr>>,
    span: Span,
)
    ensures
        (rewritten_expr(
            SExpr::If {
                cond: Box::new(SExpr::LetCond { pat, scrutinee, span: cond_span }),
                then_branch,
                else_branch,
                span,
            },
        ))->then_branch == prologue(collected_pat(pat)) + rewritten_stmts(then_branch),
{
}

} // verus!
