//! Rendering a tree back to source text.
//!
//! The rendering is canonical: tokens separated by single spaces,
//! blocks written `{ ... }`, and erasure calls written as the unsafe
//! call of the erasure primitive. Template nodes and atoms carry
//! their own text, so a rendered tree is complete source text, and a
//! tree left untouched by the rewriter renders to exactly what it was
//! built from.

use vstd::prelude::*;
use vstd::slice::slice_index_get;
use vstd::slice::slice_subrange;
use crate::ast::SArm;
use crate::ast::SExpr;
use crate::ast::SFile;
use crate::ast::SItem;
use crate::ast::SPat;
use crate::ast::SPatSeg;
use crate::ast::SSeg;
use crate::ast::SStmt;
use crate::ast::STree;
use crate::ast::Arm;
use crate::ast::Expr;
use crate::ast::File;
use crate::ast::Item;
use crate::ast::Pat;
use crate::ast::PatSeg;
use crate::ast::Seg;
use crate::ast::Stmt;
use crate::ast::Tree;
use crate::ast::view_arm;
use crate::ast::view_arms;
use crate::ast::view_expr;
use crate::ast::view_file;
use crate::ast::view_item;
use crate::ast::view_items;
use crate::ast::view_opt;
use crate::ast::view_pat;
use crate::ast::view_patseg;
use crate::ast::view_patsegs;
use crate::ast::view_seg;
use crate::ast::view_segs;
use crate::ast::view_stmt;
use crate::ast::view_stmts;
use crate::ast::view_tree;

verus! {

// ---------------------------------------------------------------------
// The rendering, as a ghost function
// ---------------------------------------------------------------------

/// The text of an expression.
pub open spec fn render_expr(e: SExpr) -> Seq<char>
    decreases e,
{
    match e {
        SExpr::Ref { mutable, span: _, inner } => if mutable {
            "&mut "@ + render_expr(*inner)
        } else {
            "&"@ + render_expr(*inner)
        },
        SExpr::Erase { span: _, arg } => "unsafe { ::you_can::borrow_unchecked("@ + render_expr(
            *arg,
        ) + ") }"@,
        SExpr::LetCond { pat, scrutinee, span: _ } => "let "@ + render_pat(pat) + " = "@
            + render_expr(*scrutinee),
        SExpr::If { cond, then_branch, else_branch, span: _ } => "if "@ + render_expr(*cond)
            + " { "@ + render_stmts(then_branch) + "}"@ + render_else(else_branch),
        SExpr::Match { scrutinee, arms, span: _ } => "match "@ + render_expr(*scrutinee) + " { "@
            + render_arms(arms) + "}"@,
        SExpr::Block { stmts, span: _ } => "{ "@ + render_stmts(stmts) + "}"@,
        SExpr::Path { name, span: _ } => name,
        SExpr::Node { segs, span: _ } => render_segs(segs),
        SExpr::Atom { text, span: _ } => text,
    }
}

/// The text of an `else` part: nothing when there is none.
pub open spec fn render_else(oe: Option<Box<SExpr>>) -> Seq<char>
    decreases oe,
{
    match oe {
        Some(e) => " else "@ + render_expr(*e),
        None => Seq::empty(),
    }
}

/// The text of an arm guard: nothing when there is none.
pub open spec fn render_guard(oe: Option<Box<SExpr>>) -> Seq<char>
    decreases oe,
{
    match oe {
        Some(e) => " if "@ + render_expr(*e),
        None => Seq::empty(),
    }
}

/// The text of a `let` initializer: nothing when there is none.
pub open spec fn render_init(oe: Option<Box<SExpr>>) -> Seq<char>
    decreases oe,
{
    match oe {
        Some(e) => " = "@ + render_expr(*e),
        None => Seq::empty(),
    }
}

/// The text of a statement list: each statement followed by a space.
pub open spec fn render_stmts(ss: Seq<SStmt>) -> Seq<char>
    decreases ss,
{
    if ss.len() == 0 {
        Seq::empty()
    } else {
        render_stmt(ss[0]) + " "@ + render_stmts(ss.drop_first())
    }
}

/// The text of a statement.
pub open spec fn render_stmt(s: SStmt) -> Seq<char>
    decreases s,
{
    match s {
        SStmt::Let { pat, init, span: _ } => "let "@ + render_pat(pat) + render_init(init) + ";"@,
        SStmt::Expr { expr, semi, span: _ } => if semi {
            render_expr(*expr) + ";"@
        } else {
            render_expr(*expr)
        },
        SStmt::Atom { text, span: _ } => text,
    }
}

/// The text of a list of match arms: each arm followed by a space.
pub open spec fn render_arms(aa: Seq<SArm>) -> Seq<char>
    decreases aa,
{
    if aa.len() == 0 {
        Seq::empty()
    } else {
        render_arm(aa[0]) + " "@ + render_arms(aa.drop_first())
    }
}

/// The text of one match arm.
pub open spec fn render_arm(a: SArm) -> Seq<char>
    decreases a,
{
    render_pat(a.pat) + render_guard(a.guard) + " => "@ + render_expr(*a.body) + ","@
}

/// The text of a list of template segments.
pub open spec fn render_segs(gg: Seq<SSeg>) -> Seq<char>
    decreases gg,
{
    if gg.len() == 0 {
        Seq::empty()
    } else {
        render_seg(gg[0]) + render_segs(gg.drop_first())
    }
}

/// The text of one template segment.
pub open spec fn render_seg(g: SSeg) -> Seq<char>
    decreases g,
{
    match g {
        SSeg::Text(t) => t,
        SSeg::Child(e) => render_expr(*e),
    }
}

/// The text of a pattern.
pub open spec fn render_pat(p: SPat) -> Seq<char>
    decreases p,
{
    match p {
        SPat::Binding { by_ref, mutable, name, span: _, sub } => (if by_ref {
            "ref "@
        } else {
            Seq::empty()
        }) + (if mutable {
            "mut "@
        } else {
            Seq::empty()
        }) + name + render_sub(sub),
        SPat::Node { segs, span: _ } => render_patsegs(segs),
        SPat::Atom { text, span: _ } => text,
    }
}

/// The text of a sub-pattern bound with `@`: nothing when there is
/// none.
pub open spec fn render_sub(op: Option<Box<SPat>>) -> Seq<char>
    decreases op,
{
    match op {
        Some(q) => " @ "@ + render_pat(*q),
        None => Seq::empty(),
    }
}

/// The text of a list of pattern segments.
pub open spec fn render_patsegs(gg: Seq<SPatSeg>) -> Seq<char>
    decreases gg,
{
    if gg.len() == 0 {
        Seq::empty()
    } else {
        render_patseg(gg[0]) + render_patsegs(gg.drop_first())
    }
}

/// The text of one pattern segment.
pub open spec fn render_patseg(g: SPatSeg) -> Seq<char>
    decreases g,
{
    match g {
        SPatSeg::Text(t) => t,
        SPatSeg::Child(q) => render_pat(*q),
    }
}

/// The text of an item.
pub open spec fn render_item(it: SItem) -> Seq<char>
    decreases it,
{
    match it {
        SItem::Fn { sig, body, span: _ } => sig + " { "@ + render_stmts(body) + "}"@,
        SItem::Group { header, items, span: _ } => header + " { "@ + render_items(items) + "}"@,
        SItem::Atom { text, span: _ } => text,
    }
}

/// The text of an item list: each item followed by a space.
pub open spec fn render_items(ii: Seq<SItem>) -> Seq<char>
    decreases ii,
{
    if ii.len() == 0 {
        Seq::empty()
    } else {
        render_item(ii[0]) + " "@ + render_items(ii.drop_first())
    }
}

/// The text of a whole file.
pub open spec fn render_file(f: SFile) -> Seq<char> {
    render_items(f.items)
}

/// The text of a transformation unit.
pub open spec fn render_tree(t: STree) -> Seq<char> {
    match t {
        STree::File(f) => render_file(f),
        STree::Expr(e) => render_expr(e),
        STree::Stmt(s) => render_stmt(s),
    }
}

// ---------------------------------------------------------------------
// The renderer
// ---------------------------------------------------------------------

/// Renders an expression.
pub fn print_expr(e: &Expr) -> (s: String)
    ensures
        s@ == render_expr(view_expr(*e)),
    decreases e,
{
    match e {
        Expr::Ref { mutable, span: _, inner } => {
            let mut s = if *mutable {
                "&mut ".to_owned()
            } else {
                "&".to_owned()
            };
            let i = print_expr(inner);
            s.append(i.as_str());
            proof {
                assert(s@ =~= render_expr(view_expr(*e)));
            }
            s
        },
        Expr::Erase { span: _, arg } => {
            let mut s = "unsafe { ::you_can::borrow_unchecked(".to_owned();
            let a = print_expr(arg);
            s.append(a.as_str());
            s.append(") }");
            proof {
                assert(s@ =~= render_expr(view_expr(*e)));
            }
            s
        },
        Expr::LetCond { pat, scrutinee, span: _ } => {
            let mut s = "let ".to_owned();
            let p = print_pat(pat);
            s.append(p.as_str());
            s.append(" = ");
            let sc = print_expr(scrutinee);
            s.append(sc.as_str());
            proof {
                assert(s@ =~= render_expr(view_expr(*e)));
            }
            s
        },
        Expr::If { cond, then_branch, else_branch, span: _ } => {
            let mut s = "if ".to_owned();
            let c = print_expr(cond);
            s.append(c.as_str());
            s.append(" { ");
            let t = print_stmts(then_branch.as_slice());
            s.append(t.as_str());
            s.append("}");
            let el = print_else(else_branch);
            s.append(el.as_str());
            proof {
                assert(s@ =~= render_expr(view_expr(*e)));
            }
            s
        },
        Expr::Match { scrutinee, arms, span: _ } => {
            let mut s = "match ".to_owned();
            let sc = print_expr(scrutinee);
            s.append(sc.as_str());
            s.append(" { ");
            let a = print_arms(arms.as_slice());
            s.append(a.as_str());
            s.append("}");
            proof {
                assert(s@ =~= render_expr(view_expr(*e)));
            }
            s
        },
        Expr::Block { stmts, span: _ } => {
            let mut s = "{ ".to_owned();
            let t = print_stmts(stmts.as_slice());
            s.append(t.as_str());
            s.append("}");
            proof {
                assert(s@ =~= render_expr(view_expr(*e)));
            }
            s
        },
        Expr::Path { name, span: _ } => {
            name.clone()
        },
        Expr::Node { segs, span: _ } => {
            print_segs(segs.as_slice())
        },
        Expr::Atom { text, span: _ } => {
            text.clone()
        },
    }
}

/// Renders an `else` part.
pub fn print_else(oe: &Option<Box<Expr>>) -> (s: String)
    ensures
        s@ == render_else(view_opt(*oe)),
    decreases oe,
{
    match oe {
        Some(e) => {
            let mut s = " else ".to_owned();
            let i = print_expr(e);
            s.append(i.as_str());
            proof {
                assert(s@ =~= render_else(view_opt(*oe)));
            }
            s
        },
        None => {
            let s = String::new();
            proof {
                assert(s@ =~= render_else(view_opt(*oe)));
            }
            s
        },
    }
}

/// Renders an arm guard.
pub fn print_guard(oe: &Option<Box<Expr>>) -> (s: String)
    ensures
        s@ == render_guard(view_opt(*oe)),
    decreases oe,
{
    match oe {
        Some(e) => {
            let mut s = " if ".to_owned();
            let i = print_expr(e);
            s.append(i.as_str());
            proof {
                assert(s@ =~= render_guard(view_opt(*oe)));
            }
            s
        },
        None => {
            let s = String::new();
            proof {
                assert(s@ =~= render_guard(view_opt(*oe)));
            }
            s
        },
    }
}

/// Renders a `let` initializer.
pub fn print_init(oe: &Option<Box<Expr>>) -> (s: String)
    ensures
        s@ == render_init(view_opt(*oe)),
    decreases oe,
{
    match oe {
        Some(e) => {
            let mut s = " = ".to_owned();
            let i = print_expr(e);
            s.append(i.as_str());
            proof {
                assert(s@ =~= render_init(view_opt(*oe)));
            }
            s
        },
        None => {
            let s = String::new();
            proof {
                assert(s@ =~= render_init(view_opt(*oe)));
            }
            s
        },
    }
}

/// Renders a statement list.
pub fn print_stmts(gg: &[Stmt]) -> (s: String)
    ensures
        s@ == render_stmts(view_stmts(gg@)),
    decreases gg@,
{
    if gg.len() == 0 {
        let s = String::new();
        proof {
            assert(s@ =~= render_stmts(view_stmts(gg@)));
        }
        s
    } else {
        let mut s = print_stmt(slice_index_get(gg, 0));
        s.append(" ");
        let rest = slice_subrange(gg, 1, gg.len());
        let r = print_stmts(rest);
        s.append(r.as_str());
        proof {
            assert(rest@ =~= gg@.drop_first());
            let x = view_stmts(gg@);
            assert(x == seq![view_stmt(gg@[0])] + view_stmts(gg@.drop_first()));
            assert(x.len() > 0);
            assert(x[0] == view_stmt(gg@[0]));
            assert(x.drop_first() =~= view_stmts(gg@.drop_first()));
            assert(render_stmts(x) == render_stmt(x[0]) + " "@ + render_stmts(x.drop_first()));
            assert(s@ =~= render_stmts(x));
        }
        s
    }
}

/// Renders a statement.
pub fn print_stmt(st: &Stmt) -> (s: String)
    ensures
        s@ == render_stmt(view_stmt(*st)),
    decreases st,
{
    match st {
        Stmt::Let { pat, init, span: _ } => {
            let mut s = "let ".to_owned();
            let p = print_pat(pat);
            s.append(p.as_str());
            let i = print_init(init);
            s.append(i.as_str());
            s.append(";");
            proof {
                assert(s@ =~= render_stmt(view_stmt(*st)));
            }
            s
        },
        Stmt::Expr { expr, semi, span: _ } => {
            let mut s = print_expr(expr);
            if *semi {
                s.append(";");
            }
            proof {
                assert(s@ =~= render_stmt(view_stmt(*st)));
            }
            s
        },
        Stmt::Atom { text, span: _ } => {
            text.clone()
        },
    }
}

/// Renders a list of match arms.
pub fn print_arms(gg: &[Arm]) -> (s: String)
    ensures
        s@ == render_arms(view_arms(gg@)),
    decreases gg@,
{
    if gg.len() == 0 {
        let s = String::new();
        proof {
            assert(s@ =~= render_arms(view_arms(gg@)));
        }
        s
    } else {
        let mut s = print_arm(slice_index_get(gg, 0));
        s.append(" ");
        let rest = slice_subrange(gg, 1, gg.len());
        let r = print_arms(rest);
        s.append(r.as_str());
        proof {
            assert(rest@ =~= gg@.drop_first());
            let x = view_arms(gg@);
            assert(x == seq![view_arm(gg@[0])] + view_arms(gg@.drop_first()));
            assert(x.len() > 0);
            assert(x[0] == view_arm(gg@[0]));
            assert(x.drop_first() =~= view_arms(gg@.drop_first()));
            assert(render_arms(x) == render_arm(x[0]) + " "@ + render_arms(x.drop_first()));
            assert(s@ =~= render_arms(x));
        }
        s
    }
}

/// Renders one match arm.
pub fn print_arm(a: &Arm) -> (s: String)
    ensures
        s@ == render_arm(view_arm(*a)),
    decreases a,
{
    let mut s = print_pat(&a.pat);
    let g = print_guard(&a.guard);
    s.append(g.as_str());
    s.append(" => ");
    let b = print_expr(&a.body);
    s.append(b.as_str());
    s.append(",");
    proof {
        assert(s@ =~= render_arm(view_arm(*a)));
    }
    s
}

/// Renders a list of template segments.
pub fn print_segs(gg: &[Seg]) -> (s: String)
    ensures
        s@ == render_segs(view_segs(gg@)),
    decreases gg@,
{
    if gg.len() == 0 {
        let s = String::new();
        proof {
            assert(s@ =~= render_segs(view_segs(gg@)));
        }
        s
    } else {
        let mut s = print_seg(slice_index_get(gg, 0));
        let rest = slice_subrange(gg, 1, gg.len());
        let r = print_segs(rest);
        s.append(r.as_str());
        proof {
            assert(rest@ =~= gg@.drop_first());
            let x = view_segs(gg@);
            assert(x == seq![view_seg(gg@[0])] + view_segs(gg@.drop_first()));
            assert(x.len() > 0);
            assert(x[0] == view_seg(gg@[0]));
            assert(x.drop_first() =~= view_segs(gg@.drop_first()));
            assert(render_segs(x) == render_seg(x[0]) + render_segs(x.drop_first()));
            assert(s@ =~= render_segs(x));
        }
        s
    }
}

/// Renders one template segment.
pub fn print_seg(g: &Seg) -> (s: String)
    ensures
        s@ == render_seg(view_seg(*g)),
    decreases g,
{
    match g {
        Seg::Text(t) => t.clone(),
        Seg::Child(e) => print_expr(e),
    }
}

/// Renders a pattern.
pub fn print_pat(p: &Pat) -> (s: String)
    ensures
        s@ == render_pat(view_pat(*p)),
    decreases p,
{
    match p {
        Pat::Binding { by_ref, mutable, name, span: _, sub } => {
            let mut s = if *by_ref {
                "ref ".to_owned()
            } else {
                String::new()
            };
            if *mutable {
                s.append("mut ");
            }
            s.append(name.as_str());
            let q = print_sub(sub);
            s.append(q.as_str());
            proof {
                assert(s@ =~= render_pat(view_pat(*p)));
            }
            s
        },
        Pat::Node { segs, span: _ } => {
            print_patsegs(segs.as_slice())
        },
        Pat::Atom { text, span: _ } => {
            text.clone()
        },
    }
}

/// Renders a sub-pattern bound with `@`.
pub fn print_sub(op: &Option<Box<Pat>>) -> (s: String)
    ensures
        s@ == render_sub(match *op {
            Some(q) => Some(Box::new(view_pat(*q))),
            None => None,
        }),
    decreases op,
{
    match op {
        Some(q) => {
            let mut s = " @ ".to_owned();
            let i = print_pat(q);
            s.append(i.as_str());
            s
        },
        None => {
            let s = String::new();
            proof {
                assert(s@ =~= Seq::<char>::empty());
            }
            s
        },
    }
}

/// Renders a list of pattern segments.
pub fn print_patsegs(gg: &[PatSeg]) -> (s: String)
    ensures
        s@ == render_patsegs(view_patsegs(gg@)),
    decreases gg@,
{
    if gg.len() == 0 {
        let s = String::new();
        proof {
            assert(s@ =~= render_patsegs(view_patsegs(gg@)));
        }
        s
    } else {
        let mut s = print_patseg(slice_index_get(gg, 0));
        let rest = slice_subrange(gg, 1, gg.len());
        let r = print_patsegs(rest);
        s.append(r.as_str());
        proof {
            assert(rest@ =~= gg@.drop_first());
            let x = view_patsegs(gg@);
            assert(x == seq![view_patseg(gg@[0])] + view_patsegs(gg@.drop_first()));
            assert(x.len() > 0);
            assert(x[0] == view_patseg(gg@[0]));
            assert(x.drop_first() =~= view_patsegs(gg@.drop_first()));
            assert(render_patsegs(x) == render_patseg(x[0]) + render_patsegs(x.drop_first()));
            assert(s@ =~= render_patsegs(x));
        }
        s
    }
}

/// Renders one pattern segment.
pub fn print_patseg(g: &PatSeg) -> (s: String)
    ensures
        s@ == render_patseg(view_patseg(*g)),
    decreases g,
{
    match g {
        PatSeg::Text(t) => t.clone(),
        PatSeg::Child(q) => print_pat(q),
    }
}

/// Renders an item.
pub fn print_item(it: &Item) -> (s: String)
    ensures
        s@ == render_item(view_item(*it)),
    decreases it,
{
    match it {
        Item::Fn { sig, body, span: _ } => {
            let mut s = sig.clone();
            s.append(" { ");
            let b = print_stmts(body.as_slice());
            s.append(b.as_str());
            s.append("}");
            proof {
                assert(s@ =~= render_item(view_item(*it)));
            }
            s
        },
        Item::Group { header, items, span: _ } => {
            let mut s = header.clone();
            s.append(" { ");
            let b = print_items(items.as_slice());
            s.append(b.as_str());
            s.append("}");
            proof {
                assert(s@ =~= render_item(view_item(*it)));
            }
            s
        },
        Item::Atom { text, span: _ } => {
            text.clone()
        },
    }
}

/// Renders an item list.
pub fn print_items(gg: &[Item]) -> (s: String)
    ensures
        s@ == render_items(view_items(gg@)),
    decreases gg@,
{
    if gg.len() == 0 {
        let s = String::new();
        proof {
            assert(s@ =~= render_items(view_items(gg@)));
        }
        s
    } else {
        let mut s = print_item(slice_index_get(gg, 0));
        s.append(" ");
        let rest = slice_subrange(gg, 1, gg.len());
        let r = print_items(rest);
        s.append(r.as_str());
        proof {
            assert(rest@ =~= gg@.drop_first());
            let x = view_items(gg@);
            assert(x == seq![view_item(gg@[0])] + view_items(gg@.drop_first()));
            assert(x.len() > 0);
            assert(x[0] == view_item(gg@[0]));
            assert(x.drop_first() =~= view_items(gg@.drop_first()));
            assert(render_items(x) == render_item(x[0]) + " "@ + render_items(x.drop_first()));
            assert(s@ =~= render_items(x));
        }
        s
    }
}

/// Renders a whole file.
pub fn print_file(f: &File) -> (s: String)
    ensures
        s@ == render_file(view_file(*f)),
{
    print_items(f.items.as_slice())
}

/// Renders a transformation unit.
pub fn print_tree(t: &Tree) -> (s: String)
    ensures
        s@ == render_tree(view_tree(*t)),
{
    match t {
        Tree::File(f) => print_file(f),
        Tree::Expr(e) => print_expr(e),
        Tree::Stmt(st) => print_stmt(st),
    }
}

// ---------------------------------------------------------------------
// The Print trait
// ---------------------------------------------------------------------

/// Rendering a tree value to source text, with the text pinned down
/// by the ghost rendering.
pub trait Print {
    /// The text this value renders to.
    spec fn rendered(&self) -> Seq<char>;

    /// Renders this value to source text.
    fn print(&self) -> (s: String)
        ensures
            s@ == self.rendered(),
    ;
}

impl Print for Expr {
    open spec fn rendered(&self) -> Seq<char> {
        render_expr(view_expr(*self))
    }

    fn print(&self) -> (s: String) {
        print_expr(self)
    }
}

impl Print for Pat {
    open spec fn rendered(&self) -> Seq<char> {
        render_pat(view_pat(*self))
    }

    fn print(&self) -> (s: String) {
        print_pat(self)
    }
}

impl Print for Stmt {
    open spec fn rendered(&self) -> Seq<char> {
        render_stmt(view_stmt(*self))
    }

    fn print(&self) -> (s: String) {
        print_stmt(self)
    }
}

impl Print for Arm {
    open spec fn rendered(&self) -> Seq<char> {
        render_arm(view_arm(*self))
    }

    fn print(&self) -> (s: String) {
        print_arm(self)
    }
}

impl Print for Item {
    open spec fn rendered(&self) -> Seq<char> {
        render_item(view_item(*self))
    }

    fn print(&self) -> (s: String) {
        print_item(self)
    }
}

impl Print for File {
    open spec fn rendered(&self) -> Seq<char> {
        render_file(view_file(*self))
    }

    fn print(&self) -> (s: String) {
        print_file(self)
    }
}

impl Print for Tree {
    open spec fn rendered(&self) -> Seq<char> {
        render_tree(view_tree(*self))
    }

    fn print(&self) -> (s: String) {
        print_tree(self)
    }
}

} // verus!
