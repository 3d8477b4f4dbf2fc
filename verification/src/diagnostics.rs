//! Planning of the warnings owed for one transformation run.
//!
//! The transformation itself never prints: it returns a plan saying
//! which warnings the caller must emit, depending on whether the rich
//! diagnostic channel is available and on whether the one-time plain
//! banner was already printed in this process.

use vstd::prelude::*;

verus! {

/// Which warnings to emit after one transformation run.
///
/// On the rich channel the general warning is always owed, and when
/// more than one site was rewritten a single itemized listing naming
/// every rewritten site is owed as well. Without the rich channel a
/// plain banner is owed instead, at most once per process.
#[derive(Clone, Copy, Debug, PartialEq, Eq, Structural)]
pub struct DiagnosticPlan {
    /// Emit the general warning, anchored at the invocation site.
    pub general_warning: bool,
    /// Emit one itemized listing naming every rewritten site.
    pub site_listing: bool,
    /// Print the plain one-time banner.
    pub banner: bool,
}

/// Decides which warnings one run owes: `rich` says whether the rich
/// diagnostic channel is available, `already_warned` whether the
/// banner was printed before in this process, and `site_count` how
/// many sites were rewritten.
pub fn plan_diagnostics(rich: bool, already_warned: bool, site_count: usize) -> (p: DiagnosticPlan)
    ensures
        p.general_warning == rich,
        p.site_listing == (rich && site_count > 1),
        p.banner == (!rich && !already_warned),
{
    DiagnosticPlan {
        general_warning: rich,
        site_listing: rich && site_count > 1,
        banner: !rich && !already_warned,
    }
}

/// The text of the general warning.
pub fn warning_text() -> (s: String)
    ensures
        s@
            == "this suppresses the borrow checker in an unsafe, unsound, and unstable way that produces undefined behaviour. this is not suitable for any purpose beyond educational experimentation."@,
{
    "this suppresses the borrow checker in an unsafe, unsound, and unstable way that produces undefined behaviour. this is not suitable for any purpose beyond educational experimentation.".to_owned()
}

/// The text of the itemized site listing's message.
pub fn listing_text() -> (s: String)
    ensures
        s@ == "the borrow checker is suppressed for these references."@,
{
    "the borrow checker is suppressed for these references.".to_owned()
}

/// One line of the plain banner.
pub fn banner_line() -> (s: String)
    ensures
        s@
            == " DANGER   This transformation is inherently unsafe, unsound, and unstable. It is not suitable for any purpose beyond educational experimentation."@,
{
    " DANGER   This transformation is inherently unsafe, unsound, and unstable. It is not suitable for any purpose beyond educational experimentation.".to_owned()
}

} // verus!
