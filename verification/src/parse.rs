//! Granularity detection for the transformation's input text.
//!
//! The input may be a whole file, one expression, or one statement;
//! the supported granularities are tried in that order, and the run
//! fails only when none of them parses. The host language's own
//! parser is consumed as an outside capability; this module decides,
//! with an exact contract, which granularity is used and when the
//! whole run fails.

use vstd::prelude::*;

verus! {

/// The input could not be parsed at any supported granularity. The
/// caller must surface this as a compile-time error at the invocation
/// site and produce no output.
#[derive(Clone, Copy, Debug, PartialEq, Eq, Structural)]
pub struct ParseFailure;

/// The granularity at which the input text parsed.
#[derive(Clone, Copy, Debug, PartialEq, Eq, Structural)]
pub enum Granularity {
    /// A whole source file.
    File,
    /// One expression.
    Expr,
    /// One statement.
    Stmt,
}

/// Whether the text parses as a whole source file.
pub uninterp spec fn parses_as_file(s: Seq<char>) -> bool;

/// Whether the text parses as one expression.
pub uninterp spec fn parses_as_expr(s: Seq<char>) -> bool;

/// Whether the text parses as one statement.
pub uninterp spec fn parses_as_stmt(s: Seq<char>) -> bool;

/// Relies on syn::parse_str::<syn::File>: whether a string parses as
/// a file is a function of the string alone.
#[verifier::external_body]
fn file_parses(s: &str) -> (r: bool)
    ensures
        r == parses_as_file(s@),
{
    syn::parse_str::<syn::File>(s).is_ok()
}

/// Relies on syn::parse_str::<syn::Expr>: whether a string parses as
/// an expression is a function of the string alone.
#[verifier::external_body]
fn expr_parses(s: &str) -> (r: bool)
    ensures
        r == parses_as_expr(s@),
{
    syn::parse_str::<syn::Expr>(s).is_ok()
}

/// Relies on syn::parse_str::<syn::Stmt>: whether a string parses as
/// a statement is a function of the string alone.
#[verifier::external_body]
fn stmt_parses(s: &str) -> (r: bool)
    ensures
        r == parses_as_stmt(s@),
{
    syn::parse_str::<syn::Stmt>(s).is_ok()
}

/// Detects the granularity of the input text, trying the supported
/// granularities in order: whole file first, then expression, then
/// statement. Returns the parse failure if and only if none of the
/// three parses.
pub fn parse_input(text: &str) -> (r: Result<Granularity, ParseFailure>)
    ensures
        parses_as_file(text@) ==> r == Ok::<Granularity, ParseFailure>(Granularity::File),
        !parses_as_file(text@) && parses_as_expr(text@) ==> r == Ok::<Granularity, ParseFailure>(
            Granularity::Expr,
        ),
        !parses_as_file(text@) && !parses_as_expr(text@) && parses_as_stmt(text@) ==> r == Ok::<
            Granularity,
            ParseFailure,
        >(Granularity::Stmt),
        !parses_as_file(text@) && !parses_as_expr(text@) && !parses_as_stmt(text@) ==> r == Err::<
            Granularity,
            ParseFailure,
        >(ParseFailure),
{
    if file_parses(text) {
        Ok(Granularity::File)
    } else if expr_parses(text) {
        Ok(Granularity::Expr)
    } else if stmt_parses(text) {
        Ok(Granularity::Stmt)
    } else {
        Err(ParseFailure)
    }
}

} // verus!
