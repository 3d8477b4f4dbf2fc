use you_can::ast::Arm;
use you_can::ast::Expr;
use you_can::ast::File;
use you_can::ast::Item;
use you_can::ast::Pat;
use you_can::ast::PatSeg;
use you_can::ast::Seg;
use you_can::ast::Span;
use you_can::ast::Stmt;
use you_can::ast::Tree;
use you_can::ast::span_new;
use you_can::print::Print;
use you_can::turn_off_the_borrow_checker;

fn sp(n: u64) -> Span {
    span_new(n, n)
}

fn path(name: &str, n: u64) -> Expr {
    Expr::Path { name: name.to_string(), span: sp(n) }
}

fn plain_binding(name: &str, n: u64) -> Pat {
    Pat::Binding { by_ref: false, mutable: false, name: name.to_string(), span: sp(n), sub: None }
}

fn ref_binding(name: &str, mutable: bool, n: u64) -> Pat {
    Pat::Binding { by_ref: true, mutable, name: name.to_string(), span: sp(n), sub: None }
}

#[test]
fn scenario_mutable_alias_is_rebound_through_erasure() {
    // let mutable_alias = &mut source;
    let input = Tree::Stmt(Stmt::Let {
        pat: plain_binding("mutable_alias", 1),
        init: Some(Box::new(Expr::Ref {
            mutable: true,
            span: sp(2),
            inner: Box::new(path("source", 3)),
        })),
        span: sp(1),
    });
    let out = turn_off_the_borrow_checker(input, true, false);
    assert_eq!(
        out.tree.print(),
        "let mutable_alias = { let __ref = &mut source; \
         unsafe { ::you_can::borrow_unchecked(__ref) } };"
    );
    assert_eq!(out.sites, vec![sp(2)]);
    assert!(out.plan.general_warning);
    assert!(!out.plan.site_listing);
}

#[test]
fn scenario_if_let_prepends_one_rebinding_per_collected_binding() {
    // if let Some(ref mut a) = source { use_it(a); }
    let pat = Pat::Node {
        segs: vec![
            PatSeg::Text("Some(".to_string()),
            PatSeg::Child(Box::new(ref_binding("a", true, 4))),
            PatSeg::Text(")".to_string()),
        ],
        span: sp(4),
    };
    let call = Expr::Node {
        segs: vec![
            Seg::Text("use_it(".to_string()),
            Seg::Child(Box::new(path("a", 6))),
            Seg::Text(")".to_string()),
        ],
        span: sp(6),
    };
    let input = Tree::Expr(Expr::If {
        cond: Box::new(Expr::LetCond {
            pat,
            scrutinee: Box::new(path("source", 5)),
            span: sp(4),
        }),
        then_branch: vec![Stmt::Expr { expr: Box::new(call), semi: true, span: sp(6) }],
        else_branch: None,
        span: sp(4),
    });
    let out = turn_off_the_borrow_checker(input, true, false);
    assert_eq!(
        out.tree.print(),
        "if let Some(ref mut a) = source { \
         let a = unsafe { ::you_can::borrow_unchecked(a) }; use_it(a); }"
    );
    assert_eq!(out.sites, vec![sp(4)]);
}

#[test]
fn scenario_site_free_tree_comes_back_unchanged() {
    let input = Tree::File(File {
        items: vec![
            Item::Fn {
                sig: "fn main()".to_string(),
                body: vec![Stmt::Atom { text: "1 + 2;".to_string(), span: sp(1) }],
                span: sp(1),
            },
            Item::Atom { text: "struct S;".to_string(), span: sp(2) },
        ],
    });
    let expected = Tree::File(File {
        items: vec![
            Item::Fn {
                sig: "fn main()".to_string(),
                body: vec![Stmt::Atom { text: "1 + 2;".to_string(), span: sp(1) }],
                span: sp(1),
            },
            Item::Atom { text: "struct S;".to_string(), span: sp(2) },
        ],
    });
    let before = expected.print();
    let out = turn_off_the_borrow_checker(input, true, false);
    assert_eq!(out.tree, expected);
    assert_eq!(out.tree.print(), before);
    assert_eq!(out.sites, Vec::<Span>::new());
    assert!(!out.plan.site_listing);
}

#[test]
fn nested_references_are_wrapped_inside_out() {
    // &&x
    let input = Tree::Expr(Expr::Ref {
        mutable: false,
        span: sp(10),
        inner: Box::new(Expr::Ref {
            mutable: false,
            span: sp(5),
            inner: Box::new(path("x", 1)),
        }),
    });
    let out = turn_off_the_borrow_checker(input, true, false);
    assert_eq!(
        out.tree.print(),
        "{ let __ref = &{ let __ref = &x; unsafe { ::you_can::borrow_unchecked(__ref) } }; \
         unsafe { ::you_can::borrow_unchecked(__ref) } }"
    );
    // Inner site first: the fold is post-order.
    assert_eq!(out.sites, vec![sp(5), sp(10)]);
}

#[test]
fn same_name_in_two_arms_is_rebound_independently() {
    let arm = |n: u64| Arm {
        pat: ref_binding("x", false, n),
        guard: None,
        body: Box::new(path("x", n)),
        span: sp(n),
    };
    let input = Tree::Expr(Expr::Match {
        scrutinee: Box::new(path("v", 1)),
        arms: vec![arm(2), arm(3)],
        span: sp(1),
    });
    let out = turn_off_the_borrow_checker(input, true, false);
    assert_eq!(
        out.tree.print(),
        "match v { \
         ref x => { let x = unsafe { ::you_can::borrow_unchecked(x) }; x }, \
         ref x => { let x = unsafe { ::you_can::borrow_unchecked(x) }; x }, }"
    );
    assert_eq!(out.sites, vec![sp(2), sp(3)]);
    assert!(out.plan.site_listing);
}

#[test]
fn arm_without_bindings_keeps_its_body_unwrapped() {
    let input = Tree::Expr(Expr::Match {
        scrutinee: Box::new(path("v", 1)),
        arms: vec![Arm {
            pat: Pat::Atom { text: "_".to_string(), span: sp(2) },
            guard: None,
            body: Box::new(path("v", 3)),
            span: sp(2),
        }],
        span: sp(1),
    });
    let out = turn_off_the_borrow_checker(input, true, false);
    assert_eq!(out.tree.print(), "match v { _ => v, }");
    assert_eq!(out.sites, Vec::<Span>::new());
}

#[test]
fn erasure_call_count_matches_site_count() {
    // fn f() { let a = &x; if let P(ref b) = y { b; } let c = &mut z; }
    let input = Tree::File(File {
        items: vec![Item::Fn {
            sig: "fn f()".to_string(),
            body: vec![
                Stmt::Let {
                    pat: plain_binding("a", 1),
                    init: Some(Box::new(Expr::Ref {
                        mutable: false,
                        span: sp(2),
                        inner: Box::new(path("x", 3)),
                    })),
                    span: sp(1),
                },
                Stmt::Expr {
                    expr: Box::new(Expr::If {
                        cond: Box::new(Expr::LetCond {
                            pat: Pat::Node {
                                segs: vec![
                                    PatSeg::Text("P(".to_string()),
                                    PatSeg::Child(Box::new(ref_binding("b", false, 4))),
                                    PatSeg::Text(")".to_string()),
                                ],
                                span: sp(4),
                            },
                            scrutinee: Box::new(path("y", 5)),
                            span: sp(4),
                        }),
                        then_branch: vec![Stmt::Expr {
                            expr: Box::new(path("b", 6)),
                            semi: true,
                            span: sp(6),
                        }],
                        else_branch: None,
                        span: sp(4),
                    }),
                    semi: false,
                    span: sp(4),
                },
                Stmt::Let {
                    pat: plain_binding("c", 7),
                    init: Some(Box::new(Expr::Ref {
                        mutable: true,
                        span: sp(8),
                        inner: Box::new(path("z", 9)),
                    })),
                    span: sp(7),
                },
            ],
            span: sp(1),
        }],
    });
    let out = turn_off_the_borrow_checker(input, true, false);
    let text = out.tree.print();
    let wrappers = text.matches("::you_can::borrow_unchecked(").count();
    assert_eq!(out.sites.len(), 3);
    assert_eq!(wrappers, 3);
    // Binding spans of the `if let` come before the sites of its
    // scrutinee and branches; reference sites come post-order.
    assert_eq!(out.sites, vec![sp(2), sp(4), sp(8)]);
}

#[test]
fn one_site_emits_no_listing_two_sites_emit_one() {
    let one = Tree::Expr(Expr::Ref {
        mutable: false,
        span: sp(1),
        inner: Box::new(path("x", 2)),
    });
    let out_one = turn_off_the_borrow_checker(one, true, false);
    assert_eq!(out_one.sites.len(), 1);
    assert!(out_one.plan.general_warning);
    assert!(!out_one.plan.site_listing);

    let two = Tree::Expr(Expr::Ref {
        mutable: false,
        span: sp(1),
        inner: Box::new(Expr::Ref {
            mutable: true,
            span: sp(2),
            inner: Box::new(path("x", 3)),
        }),
    });
    let out_two = turn_off_the_borrow_checker(two, true, false);
    assert_eq!(out_two.sites.len(), 2);
    assert!(out_two.plan.general_warning);
    assert!(out_two.plan.site_listing);
}

#[test]
fn banner_is_owed_once_on_the_plain_channel() {
    let input = || Tree::Expr(path("x", 1));
    let first = turn_off_the_borrow_checker(input(), false, false);
    assert!(first.plan.banner);
    assert!(!first.plan.general_warning);
    assert!(!first.plan.site_listing);
    let second = turn_off_the_borrow_checker(input(), false, true);
    assert!(!second.plan.banner);
}

#[test]
fn guards_are_rewritten_but_not_given_prologues() {
    // match v { ref g if check(&g) => g, }
    let input = Tree::Expr(Expr::Match {
        scrutinee: Box::new(path("v", 1)),
        arms: vec![Arm {
            pat: ref_binding("g", false, 2),
            guard: Some(Box::new(Expr::Node {
                segs: vec![
                    Seg::Text("check(".to_string()),
                    Seg::Child(Box::new(Expr::Ref {
                        mutable: false,
                        span: sp(3),
                        inner: Box::new(path("g", 4)),
                    })),
                    Seg::Text(")".to_string()),
                ],
                span: sp(3),
            })),
            body: Box::new(path("g", 5)),
            span: sp(2),
        }],
        span: sp(1),
    });
    let out = turn_off_the_borrow_checker(input, true, false);
    assert_eq!(
        out.tree.print(),
        "match v { \
         ref g if check({ let __ref = &g; unsafe { ::you_can::borrow_unchecked(__ref) } }) \
         => { let g = unsafe { ::you_can::borrow_unchecked(g) }; g }, }"
    );
    // The arm's binding span comes before the guard's reference span.
    assert_eq!(out.sites, vec![sp(2), sp(3)]);
}

#[test]
fn while_loop_bodies_are_rewritten_structurally() {
    // while cond { take(&mut slot); }
    let input = Tree::Expr(Expr::Node {
        segs: vec![
            Seg::Text("while cond ".to_string()),
            Seg::Child(Box::new(Expr::Block {
                stmts: vec![Stmt::Expr {
                    expr: Box::new(Expr::Node {
                        segs: vec![
                            Seg::Text("take(".to_string()),
                            Seg::Child(Box::new(Expr::Ref {
                                mutable: true,
                                span: sp(2),
                                inner: Box::new(path("slot", 3)),
                            })),
                            Seg::Text(")".to_string()),
                        ],
                        span: sp(2),
                    }),
                    semi: true,
                    span: sp(2),
                }],
                span: sp(1),
            })),
        ],
        span: sp(1),
    });
    let out = turn_off_the_borrow_checker(input, true, false);
    assert_eq!(
        out.tree.print(),
        "while cond { take({ let __ref = &mut slot; \
         unsafe { ::you_can::borrow_unchecked(__ref) } }); }"
    );
    assert_eq!(out.sites, vec![sp(2)]);
}

#[test]
fn while_let_bindings_are_left_alone() {
    // while let Some(ref x) = it.next() { } — `ref` bindings are only
    // re-bound under `if let` conditions and match arms.
    let input = Tree::Expr(Expr::Node {
        segs: vec![
            Seg::Text("while ".to_string()),
            Seg::Child(Box::new(Expr::LetCond {
                pat: Pat::Node {
                    segs: vec![
                        PatSeg::Text("Some(".to_string()),
                        PatSeg::Child(Box::new(ref_binding("x", false, 2))),
                        PatSeg::Text(")".to_string()),
                    ],
                    span: sp(2),
                },
                scrutinee: Box::new(Expr::Atom {
                    text: "it.next()".to_string(),
                    span: sp(3),
                }),
                span: sp(2),
            })),
            Seg::Text(" { }".to_string()),
        ],
        span: sp(1),
    });
    let out = turn_off_the_borrow_checker(input, true, false);
    assert_eq!(out.tree.print(), "while let Some(ref x) = it.next() { }");
    assert_eq!(out.sites, Vec::<Span>::new());
}

#[test]
fn else_branches_are_rewritten_too() {
    // if let P(ref p) = v { p; } else { &q }
    let input = Tree::Expr(Expr::If {
        cond: Box::new(Expr::LetCond {
            pat: Pat::Node {
                segs: vec![
                    PatSeg::Text("P(".to_string()),
                    PatSeg::Child(Box::new(ref_binding("p", false, 2))),
                    PatSeg::Text(")".to_string()),
                ],
                span: sp(2),
            },
            scrutinee: Box::new(path("v", 3)),
            span: sp(2),
        }),
        then_branch: vec![Stmt::Expr { expr: Box::new(path("p", 4)), semi: true, span: sp(4) }],
        else_branch: Some(Box::new(Expr::Block {
            stmts: vec![Stmt::Expr {
                expr: Box::new(Expr::Ref {
                    mutable: false,
                    span: sp(5),
                    inner: Box::new(path("q", 6)),
                }),
                semi: false,
                span: sp(5),
            }],
            span: sp(5),
        })),
        span: sp(1),
    });
    let out = turn_off_the_borrow_checker(input, true, false);
    assert_eq!(
        out.tree.print(),
        "if let P(ref p) = v { let p = unsafe { ::you_can::borrow_unchecked(p) }; p; } \
         else { { let __ref = &q; unsafe { ::you_can::borrow_unchecked(__ref) } } }"
    );
    // Condition bindings first, then the sites of the branches.
    assert_eq!(out.sites, vec![sp(2), sp(5)]);
    assert!(out.plan.site_listing);
}

#[test]
fn modules_and_impls_are_rewritten_inside() {
    let input = Tree::File(File {
        items: vec![Item::Group {
            header: "mod inner".to_string(),
            items: vec![Item::Fn {
                sig: "fn g()".to_string(),
                body: vec![Stmt::Expr {
                    expr: Box::new(Expr::Ref {
                        mutable: false,
                        span: sp(2),
                        inner: Box::new(path("t", 3)),
                    }),
                    semi: true,
                    span: sp(2),
                }],
                span: sp(1),
            }],
            span: sp(1),
        }],
    });
    let out = turn_off_the_borrow_checker(input, true, false);
    assert_eq!(
        out.tree.print(),
        "mod inner { fn g() { { let __ref = &t; \
         unsafe { ::you_can::borrow_unchecked(__ref) } }; } } "
    );
    assert_eq!(out.sites, vec![sp(2)]);
}
