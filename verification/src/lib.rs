//! A source-to-source transformer that rewrites reference-forming
//! constructs in a syntax tree into calls of a lifetime-erasure
//! primitive, so that the borrow checker no longer ties the resulting
//! references to their origin. For educational experimentation only.
//!
//! The transformation is a pure tree-to-tree fold: parse the input at
//! one of the supported granularities, rewrite every
//! reference-forming site, and plan the warnings the run owes. The
//! caller serializes the returned tree and emits the warnings.

pub mod ast;
pub mod collect;
pub mod rewrite;
pub mod laws;
pub mod diagnostics;
pub mod parse;
pub mod erase;
pub mod print;

use vstd::prelude::*;
use crate::ast::Span;
use crate::ast::Tree;
use crate::diagnostics::DiagnosticPlan;
use crate::diagnostics::plan_diagnostics;
use crate::rewrite::rewrite_tree;
use crate::rewrite::rewritten_tree;
use crate::rewrite::sites_tree;

verus! {

/// The outcome of one transformation run: the rewritten tree, the
/// spans of every rewritten site in rewrite order, and the warnings
/// the run owes.
#[derive(Debug, PartialEq, Eq)]
pub struct Transformed {
    pub tree: Tree,
    pub sites: Vec<Span>,
    pub plan: DiagnosticPlan,
}

/// The whole transformation on one parsed tree: rewrites every
/// reference-forming expression into an erasure-call block, re-binds
/// every by-reference binding of an `if let` condition or `match` arm
/// through the erasure call at the head of its branch body, and
/// leaves everything else exactly as it was. `unstable_diagnostics`
/// says whether the rich diagnostic channel is available, and
/// `already_warned` whether the plain banner was printed before in
/// this process.
pub fn turn_off_the_borrow_checker(
    input: Tree,
    unstable_diagnostics: bool,
    already_warned: bool,
) -> (t: Transformed)
    ensures
        t.tree@ == rewritten_tree(input@),
        t.sites@ == sites_tree(input@),
        t.plan.general_warning == unstable_diagnostics,
        t.plan.site_listing == (unstable_diagnostics && sites_tree(input@).len() > 1),
        t.plan.banner == (!unstable_diagnostics && !already_warned),
{
    let mut sites: Vec<Span> = Vec::new();
    let tree = rewrite_tree(input, &mut sites);
    let plan = plan_diagnostics(unstable_diagnostics, already_warned, sites.len());
    Transformed { tree, sites, plan }
}

} // verus!
