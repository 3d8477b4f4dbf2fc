use you_can::ast::Expr;
use you_can::ast::Pat;
use you_can::ast::PatSeg;
use you_can::ast::Span;
use you_can::ast::Stmt;
use you_can::ast::span_new;
use you_can::collect::Binding;
use you_can::collect::collect_refs;
use you_can::diagnostics::banner_line;
use you_can::diagnostics::listing_text;
use you_can::diagnostics::plan_diagnostics;
use you_can::diagnostics::warning_text;
use you_can::erase::BorrowUnchecked;
use you_can::erase::Reference;
use you_can::erase::borrow_unchecked;
use you_can::erase::reference;
use you_can::parse::Granularity;
use you_can::parse::ParseFailure;
use you_can::parse::parse_input;
use you_can::print::Print;
use you_can::rewrite::temp_ident;

fn sp(n: u64) -> Span {
    span_new(n, n)
}

#[test]
fn spans_carry_their_bounds() {
    let s = span_new(3, 9);
    assert_eq!(s.lo, 3);
    assert_eq!(s.hi, 9);
}

#[test]
fn the_hidden_temporary_has_a_fixed_name() {
    assert_eq!(temp_ident(), "__ref");
}

#[test]
fn collector_finds_by_reference_bindings_in_order() {
    // P(ref a @ ref b, c, ref a)
    let pat = Pat::Node {
        segs: vec![
            PatSeg::Text("P(".to_string()),
            PatSeg::Child(Box::new(Pat::Binding {
                by_ref: true,
                mutable: false,
                name: "a".to_string(),
                span: sp(1),
                sub: Some(Box::new(Pat::Binding {
                    by_ref: true,
                    mutable: true,
                    name: "b".to_string(),
                    span: sp(2),
                    sub: None,
                })),
            })),
            PatSeg::Text(", ".to_string()),
            PatSeg::Child(Box::new(Pat::Binding {
                by_ref: false,
                mutable: false,
                name: "c".to_string(),
                span: sp(3),
                sub: None,
            })),
            PatSeg::Text(", ".to_string()),
            PatSeg::Child(Box::new(Pat::Binding {
                by_ref: true,
                mutable: false,
                name: "a".to_string(),
                span: sp(4),
                sub: None,
            })),
            PatSeg::Text(")".to_string()),
        ],
        span: sp(0),
    };
    let refs = collect_refs(&pat);
    assert_eq!(
        refs,
        vec![
            Binding { name: "a".to_string(), span: sp(1) },
            Binding { name: "b".to_string(), span: sp(2) },
            Binding { name: "a".to_string(), span: sp(4) },
        ]
    );
}

#[test]
fn collector_ignores_plain_patterns() {
    let pat = Pat::Atom { text: "_".to_string(), span: sp(1) };
    assert_eq!(collect_refs(&pat), Vec::<Binding>::new());
}

#[test]
fn collector_does_not_change_the_pattern() {
    let pat = Pat::Binding {
        by_ref: true,
        mutable: false,
        name: "a".to_string(),
        span: sp(1),
        sub: None,
    };
    let before = pat.print();
    let _ = collect_refs(&pat);
    assert_eq!(pat.print(), before);
    assert_eq!(before, "ref a");
}

#[test]
fn whole_files_parse_as_files() {
    assert_eq!(parse_input("fn main() { let x = 1; }"), Ok(Granularity::File));
}

#[test]
fn empty_input_parses_as_a_file() {
    assert_eq!(parse_input(""), Ok(Granularity::File));
}

#[test]
fn plain_expressions_fall_through_to_expression_granularity() {
    assert_eq!(parse_input("1 + 2"), Ok(Granularity::Expr));
    assert_eq!(parse_input("&mut source"), Ok(Granularity::Expr));
}

#[test]
fn statements_fall_through_to_statement_granularity() {
    assert_eq!(parse_input("let x = &y;"), Ok(Granularity::Stmt));
}

#[test]
fn scenario_malformed_input_fails_with_parse_failure() {
    assert_eq!(parse_input("][ this is not rust"), Err(ParseFailure));
    assert_eq!(parse_input("fn ("), Err(ParseFailure));
}

#[test]
fn diagnostic_plan_follows_channel_and_count() {
    let rich_zero = plan_diagnostics(true, false, 0);
    assert!(rich_zero.general_warning);
    assert!(!rich_zero.site_listing);
    assert!(!rich_zero.banner);

    let rich_many = plan_diagnostics(true, false, 5);
    assert!(rich_many.site_listing);

    let plain_first = plan_diagnostics(false, false, 5);
    assert!(!plain_first.general_warning);
    assert!(!plain_first.site_listing);
    assert!(plain_first.banner);

    let plain_again = plan_diagnostics(false, true, 5);
    assert!(!plain_again.banner);
}

#[test]
fn diagnostic_texts_are_fixed() {
    assert!(warning_text().contains("unsafe, unsound, and unstable"));
    assert!(warning_text().contains("educational experimentation"));
    assert_eq!(listing_text(), "the borrow checker is suppressed for these references.");
    assert!(banner_line().starts_with(" DANGER"));
}

#[test]
fn erasure_surface_hands_references_back_unchanged() {
    let v: u64 = 7;
    let r1 = borrow_unchecked(&v);
    assert_eq!(*r1, 7);
    let r2 = (&v).borrow_unchecked();
    assert_eq!(*r2, 7);
    let r3 = reference(&v);
    assert_eq!(*r3, 7);
    let r4 = (&v).unbounded();
    assert_eq!(*r4, 7);
}

#[test]
fn rendering_reference_kinds() {
    let shared = Expr::Ref {
        mutable: false,
        span: sp(1),
        inner: Box::new(Expr::Path { name: "x".to_string(), span: sp(2) }),
    };
    assert_eq!(shared.print(), "&x");
    let exclusive = Expr::Ref {
        mutable: true,
        span: sp(1),
        inner: Box::new(Expr::Path { name: "x".to_string(), span: sp(2) }),
    };
    assert_eq!(exclusive.print(), "&mut x");
}

#[test]
fn rendering_statements_and_subpatterns() {
    let st = Stmt::Let {
        pat: Pat::Binding {
            by_ref: false,
            mutable: true,
            name: "whole".to_string(),
            span: sp(1),
            sub: Some(Box::new(Pat::Atom { text: "_".to_string(), span: sp(2) })),
        },
        init: None,
        span: sp(1),
    };
    assert_eq!(st.print(), "let mut whole @ _;");
}
