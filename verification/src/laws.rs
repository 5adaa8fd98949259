//! The laws of the fold: what holds of every declaration, not of chosen
//! inputs.
//!
//! - the fold's output is always free of asynchronous markers;
//! - on marker-free input the fold is the identity, so a declaration
//!   without nested markers loses only its asynchronous qualifier;
//! - chained suspension points collapse fully, not one layer at a time;
//! - an asynchronous block folds to an ordinary block with the same
//!   attributes and the same statements in the same order;
//! - folding is idempotent: a second pass is a no-op.

use vstd::prelude::*;

use crate::ast::Block;
use crate::ast::Expr;
use crate::ast::ExprList;
use crate::ast::FnDecl;
use crate::ast::Piece;
use crate::ast::PieceList;
use crate::ast::Signature;
use crate::ast::Stmt;
use crate::ast::StmtList;
use crate::ast::TraitMethodDecl;
use crate::fold::block_is_folded;
use crate::fold::expr_is_folded;
use crate::fold::expr_list_is_folded;
use crate::fold::fn_decl_is_folded;
use crate::fold::folded_block;
use crate::fold::folded_expr;
use crate::fold::folded_expr_list;
use crate::fold::folded_fn_decl;
use crate::fold::folded_piece;
use crate::fold::folded_piece_list;
use crate::fold::folded_stmt;
use crate::fold::folded_stmt_list;
use crate::fold::folded_trait_method_decl;
use crate::fold::piece_is_folded;
use crate::fold::piece_list_is_folded;
use crate::fold::stmt_is_folded;
use crate::fold::stmt_list_is_folded;
use crate::fold::stmt_list_seq;
use crate::fold::trait_method_decl_is_folded;

verus! {

/// The fold leaves no marker behind: its output is free of await and
/// asynchronous-block expressions.
pub proof fn lemma_folded_expr_is_folded(e: Expr)
    ensures
        expr_is_folded(folded_expr(e)),
    decreases e,
{
    match e {
        Expr::Await(inner) => lemma_folded_expr_is_folded(*inner),
        Expr::Async { attrs: _, block } => lemma_folded_block_is_folded(block),
        Expr::Block { attrs: _, label: _, block } => lemma_folded_block_is_folded(block),
        Expr::Call { func, args } => {
            lemma_folded_expr_is_folded(*func);
            lemma_folded_expr_list_is_folded(args);
        },
        Expr::MethodCall { receiver, method: _, args } => {
            lemma_folded_expr_is_folded(*receiver);
            lemma_folded_expr_list_is_folded(args);
        },
        Expr::Other { parts } => lemma_folded_piece_list_is_folded(parts),
        _ => {},
    }
}

/// A folded part of an opaque shape is free of markers.
pub proof fn lemma_folded_piece_is_folded(p: Piece)
    ensures
        piece_is_folded(folded_piece(p)),
    decreases p,
{
    match p {
        Piece::Text(_) => {},
        Piece::Expr(e) => lemma_folded_expr_is_folded(e),
    }
}

/// Every part of a folded opaque shape is free of markers.
pub proof fn lemma_folded_piece_list_is_folded(l: PieceList)
    ensures
        piece_list_is_folded(folded_piece_list(l)),
    decreases l,
{
    match l {
        PieceList::Nil => {},
        PieceList::Cons(head, tail) => {
            lemma_folded_piece_is_folded(*head);
            lemma_folded_piece_list_is_folded(*tail);
        },
    }
}

/// Every expression of a folded argument list is free of markers.
pub proof fn lemma_folded_expr_list_is_folded(l: ExprList)
    ensures
        expr_list_is_folded(folded_expr_list(l)),
    decreases l,
{
    match l {
        ExprList::Nil => {},
        ExprList::Cons(head, tail) => {
            lemma_folded_expr_is_folded(*head);
            lemma_folded_expr_list_is_folded(*tail);
        },
    }
}

/// A folded statement is free of markers.
pub proof fn lemma_folded_stmt_is_folded(s: Stmt)
    ensures
        stmt_is_folded(folded_stmt(s)),
    decreases s,
{
    match s {
        Stmt::Local { pat: _, init } => match init {
            Some(e) => lemma_folded_expr_is_folded(e),
            None => {},
        },
        Stmt::Expr(e) => lemma_folded_expr_is_folded(e),
        Stmt::Semi(e) => lemma_folded_expr_is_folded(e),
        Stmt::Verbatim(_) => {},
    }
}

/// Every statement of a folded statement list is free of markers.
pub proof fn lemma_folded_stmt_list_is_folded(l: StmtList)
    ensures
        stmt_list_is_folded(folded_stmt_list(l)),
    decreases l,
{
    match l {
        StmtList::Nil => {},
        StmtList::Cons(head, tail) => {
            lemma_folded_stmt_is_folded(*head);
            lemma_folded_stmt_list_is_folded(*tail);
        },
    }
}

/// A folded block is free of markers.
pub proof fn lemma_folded_block_is_folded(b: Block)
    ensures
        block_is_folded(folded_block(b)),
    decreases b,
{
    lemma_folded_stmt_list_is_folded(b.stmts);
}

/// On a marker-free expression the fold is the identity.
pub proof fn lemma_fold_identity_expr(e: Expr)
    requires
        expr_is_folded(e),
    ensures
        folded_expr(e) == e,
    decreases e,
{
    match e {
        Expr::Block { attrs: _, label: _, block } => lemma_fold_identity_block(block),
        Expr::Call { func, args } => {
            lemma_fold_identity_expr(*func);
            lemma_fold_identity_expr_list(args);
        },
        Expr::MethodCall { receiver, method: _, args } => {
            lemma_fold_identity_expr(*receiver);
            lemma_fold_identity_expr_list(args);
        },
        Expr::Other { parts } => lemma_fold_identity_piece_list(parts),
        _ => {},
    }
}

/// On a marker-free part of an opaque shape the fold is the identity.
pub proof fn lemma_fold_identity_piece(p: Piece)
    requires
        piece_is_folded(p),
    ensures
        folded_piece(p) == p,
    decreases p,
{
    match p {
        Piece::Text(_) => {},
        Piece::Expr(e) => lemma_fold_identity_expr(e),
    }
}

/// On the marker-free parts of an opaque shape the fold is the identity.
pub proof fn lemma_fold_identity_piece_list(l: PieceList)
    requires
        piece_list_is_folded(l),
    ensures
        folded_piece_list(l) == l,
    decreases l,
{
    match l {
        PieceList::Nil => {},
        PieceList::Cons(head, tail) => {
            lemma_fold_identity_piece(*head);
            lemma_fold_identity_piece_list(*tail);
        },
    }
}

/// On a marker-free argument list the fold is the identity.
pub proof fn lemma_fold_identity_expr_list(l: ExprList)
    requires
        expr_list_is_folded(l),
    ensures
        folded_expr_list(l) == l,
    decreases l,
{
    match l {
        ExprList::Nil => {},
        ExprList::Cons(head, tail) => {
            lemma_fold_identity_expr(*head);
            lemma_fold_identity_expr_list(*tail);
        },
    }
}

/// On a marker-free statement the fold is the identity.
pub proof fn lemma_fold_identity_stmt(s: Stmt)
    requires
        stmt_is_folded(s),
    ensures
        folded_stmt(s) == s,
    decreases s,
{
    match s {
        Stmt::Local { pat: _, init } => match init {
            Some(e) => lemma_fold_identity_expr(e),
            None => {},
        },
        Stmt::Expr(e) => lemma_fold_identity_expr(e),
        Stmt::Semi(e) => lemma_fold_identity_expr(e),
        Stmt::Verbatim(_) => {},
    }
}

/// On a marker-free statement list the fold is the identity.
pub proof fn lemma_fold_identity_stmt_list(l: StmtList)
    requires
        stmt_list_is_folded(l),
    ensures
        folded_stmt_list(l) == l,
    decreases l,
{
    match l {
        StmtList::Nil => {},
        StmtList::Cons(head, tail) => {
            lemma_fold_identity_stmt(*head);
            lemma_fold_identity_stmt_list(*tail);
        },
    }
}

/// On a marker-free block the fold is the identity.
pub proof fn lemma_fold_identity_block(b: Block)
    requires
        block_is_folded(b),
    ensures
        folded_block(b) == b,
    decreases b,
{
    lemma_fold_identity_stmt_list(b.stmts);
}

/// A declaration without nested markers loses only its asynchronous
/// qualifier: the fold leaves attributes, visibility, the rest of the
/// signature and the whole body structurally identical.
pub proof fn lemma_fold_marker_free_fn_decl(d: FnDecl)
    requires
        block_is_folded(d.body),
    ensures
        folded_fn_decl(d) == (FnDecl {
            sig: Signature { is_async: false, ..d.sig },
            ..d
        }),
{
    lemma_fold_identity_block(d.body);
}

/// The trait-method counterpart: without nested markers only the
/// qualifier goes, and an absent default body stays absent.
pub proof fn lemma_fold_marker_free_trait_method(d: TraitMethodDecl)
    requires
        match d.body {
            Some(b) => block_is_folded(b),
            None => true,
        },
    ensures
        folded_trait_method_decl(d) == (TraitMethodDecl {
            sig: Signature { is_async: false, ..d.sig },
            ..d
        }),
{
    match d.body {
        Some(b) => lemma_fold_identity_block(b),
        None => {},
    }
}

/// Chained suspension points collapse fully: folding `await(await(e))`
/// yields the fold of `e`, not one layer less.
pub proof fn lemma_fold_collapses_await_chain(e: Expr)
    ensures
        folded_expr(Expr::Await(Box::new(Expr::Await(Box::new(e))))) == folded_expr(e),
{
    let chained = Expr::Await(Box::new(Expr::Await(Box::new(e))));
    assert(folded_expr(chained) == folded_expr(Expr::Await(Box::new(e))));
    assert(folded_expr(Expr::Await(Box::new(e))) == folded_expr(e));
}

/// An asynchronous block folds to an ordinary, unlabelled block that
/// keeps the attribute list and has the same number of statements, each
/// the fold of the input's statement at the same position.
pub proof fn lemma_fold_async_block(attrs: Vec<String>, b: Block)
    ensures
        folded_expr(Expr::Async { attrs, block: b }) == (Expr::Block {
            attrs,
            label: None,
            block: folded_block(b),
        }),
        stmt_list_seq(folded_block(b).stmts).len() == stmt_list_seq(b.stmts).len(),
        forall|i: int|
            0 <= i < stmt_list_seq(b.stmts).len() ==> stmt_list_seq(folded_block(b).stmts)[i]
                == folded_stmt(stmt_list_seq(b.stmts)[i]),
{
    lemma_folded_stmt_list_seq(b.stmts);
}

/// Folding a statement list folds each statement in place: the sequence
/// of statements keeps its length and its order.
pub proof fn lemma_folded_stmt_list_seq(l: StmtList)
    ensures
        stmt_list_seq(folded_stmt_list(l)).len() == stmt_list_seq(l).len(),
        forall|i: int|
            0 <= i < stmt_list_seq(l).len() ==> stmt_list_seq(folded_stmt_list(l))[i]
                == folded_stmt(stmt_list_seq(l)[i]),
    decreases l,
{
    match l {
        StmtList::Nil => {},
        StmtList::Cons(head, tail) => {
            lemma_folded_stmt_list_seq(*tail);
            assert forall|i: int| 0 <= i < stmt_list_seq(l).len() implies stmt_list_seq(
                folded_stmt_list(l),
            )[i] == folded_stmt(stmt_list_seq(l)[i]) by {
                if i > 0 {
                    assert(stmt_list_seq(l)[i] == stmt_list_seq(*tail)[i - 1]);
                    assert(stmt_list_seq(folded_stmt_list(l))[i] == stmt_list_seq(
                        folded_stmt_list(*tail),
                    )[i - 1]);
                }
            }
        },
    }
}

/// Folding is idempotent on expressions: a folded expression folds to
/// itself.
pub proof fn lemma_fold_idempotent_expr(e: Expr)
    ensures
        folded_expr(folded_expr(e)) == folded_expr(e),
{
    lemma_folded_expr_is_folded(e);
    lemma_fold_identity_expr(folded_expr(e));
}

/// Folding is idempotent on function declarations: an already-folded
/// declaration has no qualifier and no marker left to remove, so a
/// second fold is a no-op.
pub proof fn lemma_fold_idempotent_fn_decl(d: FnDecl)
    ensures
        folded_fn_decl(folded_fn_decl(d)) == folded_fn_decl(d),
        fn_decl_is_folded(folded_fn_decl(d)),
{
    lemma_folded_block_is_folded(d.body);
    lemma_fold_identity_block(folded_block(d.body));
}

/// Folding is idempotent on trait method declarations.
pub proof fn lemma_fold_idempotent_trait_method(d: TraitMethodDecl)
    ensures
        folded_trait_method_decl(folded_trait_method_decl(d)) == folded_trait_method_decl(d),
        trait_method_decl_is_folded(folded_trait_method_decl(d)),
{
    match d.body {
        Some(b) => {
            lemma_folded_block_is_folded(b);
            lemma_fold_identity_block(folded_block(b));
        },
        None => {},
    }
}

} // verus!
