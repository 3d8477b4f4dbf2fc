//! The syntax tree that the transformation works on.
//!
//! The tree mirrors the constructs the rewriter cares about — reference
//! expressions, `let`-pattern conditions, `match` arms, blocks, `let`
//! statements and pattern bindings — and represents every other construct
//! as a template: literal text segments interleaved with child subtrees.
//! A tree therefore renders back to source text exactly, while the
//! rewriter still reaches every reference-forming site inside it.
//!
//! Each executable type has a ghost mirror (`SExpr` for `Expr`, and so
//! on) over `Seq` and `Seq<char>`, which the contracts speak of.

use vstd::prelude::*;

verus! {

/// A source position attached to a node of the tree, carried through the
/// rewrite so that diagnostics can point at the original site.
#[derive(Clone, Copy, Debug, PartialEq, Eq, Structural)]
pub struct Span {
    pub lo: u64,
    pub hi: u64,
}

pub fn span_new(lo: u64, hi: u64) -> (s: Span)
    ensures
        s.lo == lo,
        s.hi == hi,
{
    Span { lo, hi }
}

// ---------------------------------------------------------------------
// Ghost tree
// ---------------------------------------------------------------------

/// Ghost mirror of [`Expr`].
pub enum SExpr {
    /// `&inner` or `&mut inner`: a reference-forming expression.
    Ref { mutable: bool, span: Span, inner: Box<SExpr> },
    /// A synthesized call of the lifetime-erasure primitive. Never
    /// produced by parsing; only the rewriter creates these.
    Erase { span: Span, arg: Box<SExpr> },
    /// `let pat = scrutinee`, the pattern-match condition of an `if`.
    LetCond { pat: SPat, scrutinee: Box<SExpr>, span: Span },
    /// `if cond { then_branch } else { ... }`.
    If { cond: Box<SExpr>, then_branch: Seq<SStmt>, else_branch: Option<Box<SExpr>>, span: Span },
    /// `match scrutinee { arms }`.
    Match { scrutinee: Box<SExpr>, arms: Seq<SArm>, span: Span },
    /// `{ stmts }`.
    Block { stmts: Seq<SStmt>, span: Span },
    /// A plain identifier or path expression.
    Path { name: Seq<char>, span: Span },
    /// Any other compound expression, as literal text with holes where
    /// its child expressions sit.
    Node { segs: Seq<SSeg>, span: Span },
    /// Any other leaf expression, kept as its text.
    Atom { text: Seq<char>, span: Span },
}

/// Ghost mirror of [`Seg`]: one segment of a template node.
pub enum SSeg {
    Text(Seq<char>),
    Child(Box<SExpr>),
}

/// Ghost mirror of [`Pat`].
pub enum SPat {
    /// An identifier pattern, `ref mut name @ sub` in its fullest form.
    Binding { by_ref: bool, mutable: bool, name: Seq<char>, span: Span, sub: Option<Box<SPat>> },
    /// Any composite pattern (tuple, struct, enum, reference,
    /// or-pattern), as text with holes where its sub-patterns sit.
    Node { segs: Seq<SPatSeg>, span: Span },
    /// Any leaf pattern (wildcard, literal, rest), kept as its text.
    Atom { text: Seq<char>, span: Span },
}

/// Ghost mirror of [`PatSeg`].
pub enum SPatSeg {
    Text(Seq<char>),
    Child(Box<SPat>),
}

/// Ghost mirror of [`Stmt`].
pub enum SStmt {
    /// `let pat = init;`
    Let { pat: SPat, init: Option<Box<SExpr>>, span: Span },
    /// An expression statement, with or without a trailing semicolon.
    Expr { expr: Box<SExpr>, semi: bool, span: Span },
    /// Any other statement (for example an item), kept as its text.
    Atom { text: Seq<char>, span: Span },
}

/// Ghost mirror of [`Arm`].
pub struct SArm {
    pub pat: SPat,
    pub guard: Option<Box<SExpr>>,
    pub body: Box<SExpr>,
    pub span: Span,
}

/// Ghost mirror of [`Item`].
pub enum SItem {
    /// A function item: its signature text and its body statements.
    Fn { sig: Seq<char>, body: Seq<SStmt>, span: Span },
    /// An item that nests further items behind a header, such as a
    /// module or an `impl` block.
    Group { header: Seq<char>, items: Seq<SItem>, span: Span },
    /// Any other item, kept as its text.
    Atom { text: Seq<char>, span: Span },
}

/// Ghost mirror of [`File`].
pub struct SFile {
    pub items: Seq<SItem>,
}

/// Ghost mirror of [`Tree`].
pub enum STree {
    File(SFile),
    Expr(SExpr),
    Stmt(SStmt),
}

// ---------------------------------------------------------------------
// Executable tree
// ---------------------------------------------------------------------

/// An expression.
#[derive(Debug, PartialEq, Eq)]
pub enum Expr {
    /// `&inner` or `&mut inner`: a reference-forming expression.
    Ref { mutable: bool, span: Span, inner: Box<Expr> },
    /// A synthesized call of the lifetime-erasure primitive.
    Erase { span: Span, arg: Box<Expr> },
    /// `let pat = scrutinee`, the pattern-match condition of an `if`.
    LetCond { pat: Pat, scrutinee: Box<Expr>, span: Span },
    /// `if cond { then_branch } else { ... }`.
    If { cond: Box<Expr>, then_branch: Vec<Stmt>, else_branch: Option<Box<Expr>>, span: Span },
    /// `match scrutinee { arms }`.
    Match { scrutinee: Box<Expr>, arms: Vec<Arm>, span: Span },
    /// `{ stmts }`.
    Block { stmts: Vec<Stmt>, span: Span },
    /// A plain identifier or path expression.
    Path { name: String, span: Span },
    /// Any other compound expression, as text with holes.
    Node { segs: Vec<Seg>, span: Span },
    /// Any other leaf expression, kept as its text.
    Atom { text: String, span: Span },
}

/// One segment of a template node: literal text, or a child expression.
#[derive(Debug, PartialEq, Eq)]
pub enum Seg {
    Text(String),
    Child(Box<Expr>),
}

/// A pattern.
#[derive(Debug, PartialEq, Eq)]
pub enum Pat {
    /// An identifier pattern, `ref mut name @ sub` in its fullest form.
    Binding { by_ref: bool, mutable: bool, name: String, span: Span, sub: Option<Box<Pat>> },
    /// Any composite pattern, as text with holes.
    Node { segs: Vec<PatSeg>, span: Span },
    /// Any leaf pattern, kept as its text.
    Atom { text: String, span: Span },
}

/// One segment of a composite pattern.
#[derive(Debug, PartialEq, Eq)]
pub enum PatSeg {
    Text(String),
    Child(Box<Pat>),
}

/// A statement.
#[derive(Debug, PartialEq, Eq)]
pub enum Stmt {
    /// `let pat = init;`
    Let { pat: Pat, init: Option<Box<Expr>>, span: Span },
    /// An expression statement, with or without a trailing semicolon.
    Expr { expr: Box<Expr>, semi: bool, span: Span },
    /// Any other statement, kept as its text.
    Atom { text: String, span: Span },
}

/// One arm of a `match`.
#[derive(Debug, PartialEq, Eq)]
pub struct Arm {
    pub pat: Pat,
    pub guard: Option<Box<Expr>>,
    pub body: Box<Expr>,
    pub span: Span,
}

/// An item.
#[derive(Debug, PartialEq, Eq)]
pub enum Item {
    /// A function item: its signature text and its body statements.
    Fn { sig: String, body: Vec<Stmt>, span: Span },
    /// An item that nests further items behind a header.
    Group { header: String, items: Vec<Item>, span: Span },
    /// Any other item, kept as its text.
    Atom { text: String, span: Span },
}

/// A whole source file.
#[derive(Debug, PartialEq, Eq)]
pub struct File {
    pub items: Vec<Item>,
}

/// One transformation unit, at whichever granularity it was parsed.
#[derive(Debug, PartialEq, Eq)]
pub enum Tree {
    File(File),
    Expr(Expr),
    Stmt(Stmt),
}

// ---------------------------------------------------------------------
// Views
// ---------------------------------------------------------------------

pub open spec fn view_opt(oe: Option<Box<Expr>>) -> Option<Box<SExpr>>
    decreases oe,
{
    match oe {
        Some(e) => Some(Box::new(view_expr(*e))),
        None => None,
    }
}

pub open spec fn view_expr(e: Expr) -> SExpr
    decreases e,
{
    match e {
        Expr::Ref { mutable, span, inner } => SExpr::Ref {
            mutable,
            span,
            inner: Box::new(view_expr(*inner)),
        },
        Expr::Erase { span, arg } => SExpr::Erase { span, arg: Box::new(view_expr(*arg)) },
        Expr::LetCond { pat, scrutinee, span } => SExpr::LetCond {
            pat: view_pat(pat),
            scrutinee: Box::new(view_expr(*scrutinee)),
            span,
        },
        Expr::If { cond, then_branch, else_branch, span } => SExpr::If {
            cond: Box::new(view_expr(*cond)),
            then_branch: view_stmts(then_branch@),
            else_branch: view_opt(else_branch),
            span,
        },
        Expr::Match { scrutinee, arms, span } => SExpr::Match {
            scrutinee: Box::new(view_expr(*scrutinee)),
            arms: view_arms(arms@),
            span,
        },
        Expr::Block { stmts, span } => SExpr::Block { stmts: view_stmts(stmts@), span },
        Expr::Path { name, span } => SExpr::Path { name: name@, span },
        Expr::Node { segs, span } => SExpr::Node { segs: view_segs(segs@), span },
        Expr::Atom { text, span } => SExpr::Atom { text: text@, span },
    }
}

pub open spec fn view_stmts(ss: Seq<Stmt>) -> Seq<SStmt>
    decreases ss,
{
    if ss.len() == 0 {
        Seq::empty()
    } else {
        seq![view_stmt(ss[0])] + view_stmts(ss.drop_first())
    }
}

pub open spec fn view_arms(aa: Seq<Arm>) -> Seq<SArm>
    decreases aa,
{
    if aa.len() == 0 {
        Seq::empty()
    } else {
        seq![view_arm(aa[0])] + view_arms(aa.drop_first())
    }
}

pub open spec fn view_segs(gg: Seq<Seg>) -> Seq<SSeg>
    decreases gg,
{
    if gg.len() == 0 {
        Seq::empty()
    } else {
        seq![view_seg(gg[0])] + view_segs(gg.drop_first())
    }
}

pub open spec fn view_seg(g: Seg) -> SSeg
    decreases g,
{
    match g {
        Seg::Text(t) => SSeg::Text(t@),
        Seg::Child(e) => SSeg::Child(Box::new(view_expr(*e))),
    }
}

pub open spec fn view_pat(p: Pat) -> SPat
    decreases p,
{
    match p {
        Pat::Binding { by_ref, mutable, name, span, sub } => SPat::Binding {
            by_ref,
            mutable,
            name: name@,
            span,
            sub: match sub {
                Some(q) => Some(Box::new(view_pat(*q))),
                None => None,
            },
        },
        Pat::Node { segs, span } => SPat::Node { segs: view_patsegs(segs@), span },
        Pat::Atom { text, span } => SPat::Atom { text: text@, span },
    }
}

pub open spec fn view_patsegs(gg: Seq<PatSeg>) -> Seq<SPatSeg>
    decreases gg,
{
    if gg.len() == 0 {
        Seq::empty()
    } else {
        seq![view_patseg(gg[0])] + view_patsegs(gg.drop_first())
    }
}

pub open spec fn view_patseg(g: PatSeg) -> SPatSeg
    decreases g,
{
    match g {
        PatSeg::Text(t) => SPatSeg::Text(t@),
        PatSeg::Child(p) => SPatSeg::Child(Box::new(view_pat(*p))),
    }
}

pub open spec fn view_stmt(s: Stmt) -> SStmt
    decreases s,
{
    match s {
        Stmt::Let { pat, init, span } => SStmt::Let {
            pat: view_pat(pat),
            init: view_opt(init),
            span,
        },
        Stmt::Expr { expr, semi, span } => SStmt::Expr {
            expr: Box::new(view_expr(*expr)),
            semi,
            span,
        },
        Stmt::Atom { text, span } => SStmt::Atom { text: text@, span },
    }
}

pub open spec fn view_arm(a: Arm) -> SArm
    decreases a,
{
    SArm {
        pat: view_pat(a.pat),
        guard: view_opt(a.guard),
        body: Box::new(view_expr(*a.body)),
        span: a.span,
    }
}

pub open spec fn view_item(it: Item) -> SItem
    decreases it,
{
    match it {
        Item::Fn { sig, body, span } => SItem::Fn { sig: sig@, body: view_stmts(body@), span },
        Item::Group { header, items, span } => SItem::Group {
            header: header@,
            items: view_items(items@),
            span,
        },
        Item::Atom { text, span } => SItem::Atom { text: text@, span },
    }
}

pub open spec fn view_items(ii: Seq<Item>) -> Seq<SItem>
    decreases ii,
{
    if ii.len() == 0 {
        Seq::empty()
    } else {
        seq![view_item(ii[0])] + view_items(ii.drop_first())
    }
}

pub open spec fn view_file(f: File) -> SFile {
    SFile { items: view_items(f.items@) }
}

pub open spec fn view_tree(t: Tree) -> STree {
    match t {
        Tree::File(f) => STree::File(view_file(f)),
        Tree::Expr(e) => STree::Expr(view_expr(e)),
        Tree::Stmt(s) => STree::Stmt(view_stmt(s)),
    }
}

impl View for Expr {
    type V = SExpr;

    open spec fn view(&self) -> SExpr {
        view_expr(*self)
    }
}

impl View for Seg {
    type V = SSeg;

    open spec fn view(&self) -> SSeg {
        view_seg(*self)
    }
}

impl View for Pat {
    type V = SPat;

    open spec fn view(&self) -> SPat {
        view_pat(*self)
    }
}

impl View for PatSeg {
    type V = SPatSeg;

    open spec fn view(&self) -> SPatSeg {
        view_patseg(*self)
    }
}

impl View for Stmt {
    type V = SStmt;

    open spec fn view(&self) -> SStmt {
        view_stmt(*self)
    }
}

impl View for Arm {
    type V = SArm;

    open spec fn view(&self) -> SArm {
        view_arm(*self)
    }
}

impl View for Item {
    type V = SItem;

    open spec fn view(&self) -> SItem {
        view_item(*self)
    }
}

impl View for File {
    type V = SFile;

    open spec fn view(&self) -> SFile {
        view_file(*self)
    }
}

impl View for Tree {
    type V = STree;

    open spec fn view(&self) -> STree {
        view_tree(*self)
    }
}

} // verus!
