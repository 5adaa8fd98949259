use remove_async_await::ast::Block;
use remove_async_await::ast::Expr;
use remove_async_await::ast::ExprList;
use remove_async_await::ast::FnDecl;
use remove_async_await::ast::FoldOutcome;
use remove_async_await::ast::Piece;
use remove_async_await::ast::PieceList;
use remove_async_await::ast::Signature;
use remove_async_await::ast::Stmt;
use remove_async_await::ast::StmtList;
use remove_async_await::ast::TraitMethodDecl;
use remove_async_await::dispatch::diagnostic_message;
use remove_async_await::dispatch::remove_async_await;
use remove_async_await::fold::fold_expr;
use remove_async_await::fold::fold_item_fn;
use remove_async_await::fold::fold_trait_item_method;

fn path(s: &str) -> Expr {
    Expr::Path(s.to_owned())
}

fn lit(s: &str) -> Expr {
    Expr::Lit(s.to_owned())
}

fn call0(name: &str) -> Expr {
    Expr::Call {
        func: Box::new(path(name)),
        args: ExprList::nil(),
    }
}

fn call1(name: &str, arg: Expr) -> Expr {
    Expr::Call {
        func: Box::new(path(name)),
        args: ExprList::cons(arg, ExprList::nil()),
    }
}

fn method0(receiver: Expr, name: &str) -> Expr {
    Expr::MethodCall {
        receiver: Box::new(receiver),
        method: name.to_owned(),
        args: ExprList::nil(),
    }
}

fn awaited(e: Expr) -> Expr {
    Expr::Await(Box::new(e))
}

fn block(stmts: Vec<Stmt>) -> Block {
    let mut list = StmtList::nil();
    for s in stmts.into_iter().rev() {
        list = StmtList::cons(s, list);
    }
    Block { stmts: list }
}

fn sig(is_async: bool, ident: &str, rest: &str) -> Signature {
    Signature {
        is_async,
        ident: ident.to_owned(),
        rest: rest.to_owned(),
    }
}

/// `async fn get_string() -> String { "hello world".to_owned() }` folds to
/// the same function without the qualifier; `async fn print() { ... }`
/// folds with the await unwrapped and the macro call untouched; the test
/// body's asynchronous block becomes an ordinary block.
#[test]
fn basic() {
    let get_string = FnDecl {
        attrs: vec![],
        vis: String::new(),
        sig: sig(true, "get_string", "() -> String"),
        body: block(vec![Stmt::Expr(method0(lit("\"hello world\""), "to_owned"))]),
    };
    let folded = fold_item_fn(get_string);
    assert_eq!(
        folded,
        FnDecl {
            attrs: vec![],
            vis: String::new(),
            sig: sig(false, "get_string", "() -> String"),
            body: block(vec![Stmt::Expr(method0(lit("\"hello world\""), "to_owned"))]),
        }
    );

    let print_fn = FnDecl {
        attrs: vec![],
        vis: String::new(),
        sig: sig(true, "print", "()"),
        body: block(vec![
            Stmt::Local {
                pat: "string".to_owned(),
                init: Some(awaited(call0("get_string"))),
            },
            Stmt::Semi(Expr::MacroCall {
                path: "println".to_owned(),
                tokens: "(\"{}\", string)".to_owned(),
            }),
        ]),
    };
    let folded = fold_item_fn(print_fn);
    assert_eq!(
        folded,
        FnDecl {
            attrs: vec![],
            vis: String::new(),
            sig: sig(false, "print", "()"),
            body: block(vec![
                Stmt::Local {
                    pat: "string".to_owned(),
                    init: Some(call0("get_string")),
                },
                Stmt::Semi(Expr::MacroCall {
                    path: "println".to_owned(),
                    tokens: "(\"{}\", string)".to_owned(),
                }),
            ]),
        }
    );

    let body = FnDecl {
        attrs: vec!["#[test]".to_owned()],
        vis: String::new(),
        sig: sig(true, "basic", "()"),
        body: block(vec![
            Stmt::Semi(awaited(call0("print"))),
            Stmt::Local {
                pat: "result".to_owned(),
                init: Some(awaited(Expr::Async {
                    attrs: vec![],
                    block: block(vec![
                        Stmt::Semi(Expr::MacroCall {
                            path: "println".to_owned(),
                            tokens: "(\"goodbye world\")".to_owned(),
                        }),
                        Stmt::Expr(path("true")),
                    ]),
                })),
            },
            Stmt::Semi(Expr::MacroCall {
                path: "assert_eq".to_owned(),
                tokens: "(result, true)".to_owned(),
            }),
        ]),
    };
    let folded = fold_item_fn(body);
    assert_eq!(
        folded,
        FnDecl {
            attrs: vec!["#[test]".to_owned()],
            vis: String::new(),
            sig: sig(false, "basic", "()"),
            body: block(vec![
                Stmt::Semi(call0("print")),
                Stmt::Local {
                    pat: "result".to_owned(),
                    init: Some(Expr::Block {
                        attrs: vec![],
                        label: None,
                        block: block(vec![
                            Stmt::Semi(Expr::MacroCall {
                                path: "println".to_owned(),
                                tokens: "(\"goodbye world\")".to_owned(),
                            }),
                            Stmt::Expr(path("true")),
                        ]),
                    }),
                },
                Stmt::Semi(Expr::MacroCall {
                    path: "assert_eq".to_owned(),
                    tokens: "(result, true)".to_owned(),
                }),
            ]),
        }
    );
}

/// A trait with a required asynchronous method and an asynchronous
/// default method calling `self.other().await`: folding clears the
/// qualifier on both and unwraps the nested call.
#[test]
fn traits() {
    let required = TraitMethodDecl {
        attrs: vec![],
        sig: sig(true, "to_impl", "(&mut self) -> String"),
        body: None,
    };
    let folded = fold_trait_item_method(required);
    assert_eq!(
        folded,
        TraitMethodDecl {
            attrs: vec![],
            sig: sig(false, "to_impl", "(&mut self) -> String"),
            body: None,
        }
    );

    let default_method = TraitMethodDecl {
        attrs: vec![],
        sig: sig(true, "default_impl", "(&mut self) -> String"),
        body: Some(block(vec![
            Stmt::Semi(Expr::MacroCall {
                path: "println".to_owned(),
                tokens: "(\"default impl called\")".to_owned(),
            }),
            Stmt::Expr(awaited(method0(path("self"), "to_impl"))),
        ])),
    };
    let folded = fold_trait_item_method(default_method);
    assert_eq!(
        folded,
        TraitMethodDecl {
            attrs: vec![],
            sig: sig(false, "default_impl", "(&mut self) -> String"),
            body: Some(block(vec![
                Stmt::Semi(Expr::MacroCall {
                    path: "println".to_owned(),
                    tokens: "(\"default impl called\")".to_owned(),
                }),
                Stmt::Expr(method0(path("self"), "to_impl")),
            ])),
        }
    );
}

/// `async fn get() -> String { "x".to_owned() }` folds to
/// `fn get() -> String { "x".to_owned() }`.
#[test]
fn fold_async_fn_yields_plain_fn() {
    let decl = FnDecl {
        attrs: vec![],
        vis: String::new(),
        sig: sig(true, "get", "() -> String"),
        body: block(vec![Stmt::Expr(method0(lit("\"x\""), "to_owned"))]),
    };
    let folded = fold_item_fn(decl);
    assert_eq!(
        folded,
        FnDecl {
            attrs: vec![],
            vis: String::new(),
            sig: sig(false, "get", "() -> String"),
            body: block(vec![Stmt::Expr(method0(lit("\"x\""), "to_owned"))]),
        }
    );
}

/// `async fn p() { let s = get().await; print(s); }` folds to
/// `fn p() { let s = get(); print(s); }`.
#[test]
fn fold_unwraps_await_in_let() {
    let decl = FnDecl {
        attrs: vec![],
        vis: String::new(),
        sig: sig(true, "p", "()"),
        body: block(vec![
            Stmt::Local {
                pat: "s".to_owned(),
                init: Some(awaited(call0("get"))),
            },
            Stmt::Semi(call1("print", path("s"))),
        ]),
    };
    let folded = fold_item_fn(decl);
    assert_eq!(
        folded,
        FnDecl {
            attrs: vec![],
            vis: String::new(),
            sig: sig(false, "p", "()"),
            body: block(vec![
                Stmt::Local {
                    pat: "s".to_owned(),
                    init: Some(call0("get")),
                },
                Stmt::Semi(call1("print", path("s"))),
            ]),
        }
    );
}

/// A chain of suspension points collapses fully in one pass.
#[test]
fn fold_collapses_chained_awaits() {
    let folded = fold_expr(awaited(awaited(call0("get"))));
    assert_eq!(folded, call0("get"));
}

/// An asynchronous block folds to an ordinary, unlabelled block with the
/// same attributes and the same statements in the same order.
#[test]
fn fold_async_block_preserves_attrs_and_order() {
    let e = Expr::Async {
        attrs: vec!["#[allow(unused)]".to_owned()],
        block: block(vec![
            Stmt::Semi(call0("first")),
            Stmt::Semi(awaited(call0("second"))),
            Stmt::Expr(path("true")),
        ]),
    };
    let folded = fold_expr(e);
    assert_eq!(
        folded,
        Expr::Block {
            attrs: vec!["#[allow(unused)]".to_owned()],
            label: None,
            block: block(vec![
                Stmt::Semi(call0("first")),
                Stmt::Semi(call0("second")),
                Stmt::Expr(path("true")),
            ]),
        }
    );
}

/// A declaration with no nested marker loses only its qualifier; a second
/// fold of any folded declaration is a no-op.
#[test]
fn fold_is_idempotent() {
    let build = || FnDecl {
        attrs: vec!["#[inline]".to_owned()],
        vis: "pub".to_owned(),
        sig: sig(true, "work", "(x: u32) -> u32"),
        body: block(vec![
            Stmt::Local {
                pat: "y".to_owned(),
                init: Some(awaited(call1("step", path("x")))),
            },
            Stmt::Expr(path("y")),
        ]),
    };
    let once = fold_item_fn(build());
    let twice = fold_item_fn(fold_item_fn(build()));
    assert_eq!(once, twice);

    let marker_free = FnDecl {
        attrs: vec!["#[inline]".to_owned()],
        vis: "pub".to_owned(),
        sig: sig(true, "plain", "()"),
        body: block(vec![Stmt::Semi(call0("work"))]),
    };
    let folded = fold_item_fn(marker_free);
    assert_eq!(
        folded,
        FnDecl {
            attrs: vec!["#[inline]".to_owned()],
            vis: "pub".to_owned(),
            sig: sig(false, "plain", "()"),
            body: block(vec![Stmt::Semi(call0("work"))]),
        }
    );
}

fn other(parts: Vec<Piece>) -> Expr {
    let mut list = PieceList::nil();
    for p in parts.into_iter().rev() {
        list = PieceList::cons(p, list);
    }
    Expr::Other { parts: list }
}

/// An expression shape the model leaves opaque still has its children
/// folded: in `y + g().await` the operator stays verbatim while the
/// suspension point under it is unwrapped, and likewise under an `if`
/// condition and a `?` operator.
#[test]
fn fold_reaches_children_of_opaque_shapes() {
    let sum = other(vec![
        Piece::Expr(path("y")),
        Piece::Text("+".to_owned()),
        Piece::Expr(awaited(call0("g"))),
    ]);
    assert_eq!(
        fold_expr(sum),
        other(vec![
            Piece::Expr(path("y")),
            Piece::Text("+".to_owned()),
            Piece::Expr(call0("g")),
        ])
    );

    let conditional = other(vec![
        Piece::Text("if".to_owned()),
        Piece::Expr(awaited(call0("ready"))),
        Piece::Expr(Expr::Block {
            attrs: vec![],
            label: None,
            block: block(vec![Stmt::Semi(awaited(call0("go")))]),
        }),
    ]);
    assert_eq!(
        fold_expr(conditional),
        other(vec![
            Piece::Text("if".to_owned()),
            Piece::Expr(call0("ready")),
            Piece::Expr(Expr::Block {
                attrs: vec![],
                label: None,
                block: block(vec![Stmt::Semi(call0("go"))]),
            }),
        ])
    );

    let fallible = other(vec![
        Piece::Expr(awaited(call0("fetch"))),
        Piece::Text("?".to_owned()),
    ]);
    assert_eq!(
        fold_expr(fallible),
        other(vec![
            Piece::Expr(call0("fetch")),
            Piece::Text("?".to_owned()),
        ])
    );
}

/// `async fn f() { let x = y + g().await; }` folds to
/// `fn f() { let x = y + g(); }`: the marker under the binary operator is
/// removed with the rest.
#[test]
fn fold_unwraps_await_under_binary_operator() {
    let decl = FnDecl {
        attrs: vec![],
        vis: String::new(),
        sig: sig(true, "f", "()"),
        body: block(vec![Stmt::Local {
            pat: "x".to_owned(),
            init: Some(other(vec![
                Piece::Expr(path("y")),
                Piece::Text("+".to_owned()),
                Piece::Expr(awaited(call0("g"))),
            ])),
        }]),
    };
    let folded = fold_item_fn(decl);
    assert_eq!(
        folded,
        FnDecl {
            attrs: vec![],
            vis: String::new(),
            sig: sig(false, "f", "()"),
            body: block(vec![Stmt::Local {
                pat: "x".to_owned(),
                init: Some(other(vec![
                    Piece::Expr(path("y")),
                    Piece::Text("+".to_owned()),
                    Piece::Expr(call0("g")),
                ])),
            }]),
        }
    );
}

/// An asynchronous block nested inside an awaited expression is fully
/// folded: both rewrite rules fire before the outer node is replaced.
#[test]
fn fold_async_block_inside_await() {
    let e = awaited(Expr::Async {
        attrs: vec![],
        block: block(vec![Stmt::Expr(awaited(call0("inner")))]),
    });
    let folded = fold_expr(e);
    assert_eq!(
        folded,
        Expr::Block {
            attrs: vec![],
            label: None,
            block: block(vec![Stmt::Expr(call0("inner"))]),
        }
    );
}

/// A declaration lacking the qualifier is still traversed in full: the
/// rewrite is not gated by the outer flag.
#[test]
fn fold_rewrites_markers_in_non_async_decl() {
    let decl = FnDecl {
        attrs: vec![],
        vis: String::new(),
        sig: sig(false, "q", "()"),
        body: block(vec![Stmt::Semi(awaited(call0("inner")))]),
    };
    let folded = fold_item_fn(decl);
    assert_eq!(
        folded,
        FnDecl {
            attrs: vec![],
            vis: String::new(),
            sig: sig(false, "q", "()"),
            body: block(vec![Stmt::Semi(call0("inner"))]),
        }
    );
}

/// Macro-call arguments are opaque: a marker inside them is not
/// rewritten.
#[test]
fn fold_leaves_macro_arguments_alone() {
    let e = Expr::MacroCall {
        path: "println".to_owned(),
        tokens: "(\"{}\", get_string().await)".to_owned(),
    };
    let folded = fold_expr(e);
    assert_eq!(
        folded,
        Expr::MacroCall {
            path: "println".to_owned(),
            tokens: "(\"{}\", get_string().await)".to_owned(),
        }
    );
}

/// A function declaration wins over a trait method; a lone trait method
/// is folded; when both parse attempts failed the outcome is the fixed
/// diagnostic, not a panic.
#[test]
fn dispatch_picks_shapes_in_order() {
    let f = FnDecl {
        attrs: vec![],
        vis: String::new(),
        sig: sig(true, "f", "()"),
        body: block(vec![]),
    };
    let m = TraitMethodDecl {
        attrs: vec![],
        sig: sig(true, "m", "(&self)"),
        body: None,
    };
    let outcome = remove_async_await(Some(f), Some(m));
    assert_eq!(
        outcome,
        FoldOutcome::Function(FnDecl {
            attrs: vec![],
            vis: String::new(),
            sig: sig(false, "f", "()"),
            body: block(vec![]),
        })
    );

    let m = TraitMethodDecl {
        attrs: vec![],
        sig: sig(true, "m", "(&self)"),
        body: None,
    };
    let outcome = remove_async_await(None, Some(m));
    assert_eq!(
        outcome,
        FoldOutcome::TraitMethod(TraitMethodDecl {
            attrs: vec![],
            sig: sig(false, "m", "(&self)"),
            body: None,
        })
    );
}

/// An unsupported shape (a struct declaration, say) fails both parse
/// attempts: dispatch yields the fixed diagnostic output.
#[test]
fn dispatch_rejects_unsupported_shape() {
    let outcome = remove_async_await(None, None);
    assert_eq!(outcome, FoldOutcome::Unsupported);
    assert_eq!(
        diagnostic_message(),
        "remove_async_await currently only supports functions and trait methods. \
         if you are using it on a supported type, parsing probably failed; \
         please ensure the input is valid Rust."
    );
}
