//! The traversal engine: a structure-preserving, depth-first rewrite of a
//! declaration tree.
//!
//! The fold semantics is given by the `folded_*` spec functions; the
//! executable traversal is proved to compute exactly that. The rewrite
//! rules, applied bottom-up:
//!
//! 1. a signature's asynchronous qualifier is cleared unconditionally;
//! 2. an await expression is replaced by its folded operand;
//! 3. an asynchronous block becomes an ordinary, unlabelled block with the
//!    same attributes and the folded contents;
//! 4. every other node is rebuilt with the same variant and folded
//!    children — the variant tag is never changed, and opaque token text
//!    is preserved exactly.
//!
//! The traversal is total over the grammar: it cannot fail on a valid
//! tree, and it runs whether or not the outer declaration carries the
//! qualifier, so markers nested inside a non-asynchronous declaration are
//! still rewritten.

use vstd::prelude::*;

use crate::ast::Block;
use crate::ast::Expr;
use crate::ast::ExprList;
use crate::ast::FnDecl;
use crate::ast::Piece;
use crate::ast::PieceList;
use crate::ast::Signature;
use crate::ast::Stmt;
use crate::ast::StmtList;
use crate::ast::TraitMethodDecl;

verus! {

/// The folded form of an expression: awaits are unwrapped, asynchronous
/// blocks are flattened, every other variant keeps its tag and folds its
/// children.
pub open spec fn folded_expr(e: Expr) -> Expr
    decreases e,
{
    match e {
        Expr::Await(inner) => folded_expr(*inner),
        Expr::Async { attrs, block } => Expr::Block {
            attrs,
            label: None,
            block: folded_block(block),
        },
        Expr::Block { attrs, label, block } => Expr::Block {
            attrs,
            label,
            block: folded_block(block),
        },
        Expr::Call { func, args } => Expr::Call {
            func: Box::new(folded_expr(*func)),
            args: folded_expr_list(args),
        },
        Expr::MethodCall { receiver, method, args } => Expr::MethodCall {
            receiver: Box::new(folded_expr(*receiver)),
            method,
            args: folded_expr_list(args),
        },
        Expr::Path(s) => Expr::Path(s),
        Expr::Lit(s) => Expr::Lit(s),
        Expr::MacroCall { path, tokens } => Expr::MacroCall { path, tokens },
        Expr::Other { parts } => Expr::Other { parts: folded_piece_list(parts) },
        Expr::Verbatim(s) => Expr::Verbatim(s),
    }
}

/// The folded form of one part of an opaque shape: a verbatim segment is
/// kept, a child expression is folded.
pub open spec fn folded_piece(p: Piece) -> Piece
    decreases p,
{
    match p {
        Piece::Text(s) => Piece::Text(s),
        Piece::Expr(e) => Piece::Expr(folded_expr(e)),
    }
}

/// The folded form of an opaque shape's parts: each folded, order kept.
pub open spec fn folded_piece_list(l: PieceList) -> PieceList
    decreases l,
{
    match l {
        PieceList::Nil => PieceList::Nil,
        PieceList::Cons(head, tail) => PieceList::Cons(
            Box::new(folded_piece(*head)),
            Box::new(folded_piece_list(*tail)),
        ),
    }
}

/// The folded form of an argument list: each element folded, order kept.
pub open spec fn folded_expr_list(l: ExprList) -> ExprList
    decreases l,
{
    match l {
        ExprList::Nil => ExprList::Nil,
        ExprList::Cons(head, tail) => ExprList::Cons(
            Box::new(folded_expr(*head)),
            Box::new(folded_expr_list(*tail)),
        ),
    }
}

/// The folded form of a statement: its nested expressions folded, its
/// kind and opaque text unchanged.
pub open spec fn folded_stmt(s: Stmt) -> Stmt
    decreases s,
{
    match s {
        Stmt::Local { pat, init } => match init {
            Some(e) => Stmt::Local { pat, init: Some(folded_expr(e)) },
            None => Stmt::Local { pat, init: None },
        },
        Stmt::Expr(e) => Stmt::Expr(folded_expr(e)),
        Stmt::Semi(e) => Stmt::Semi(folded_expr(e)),
        Stmt::Verbatim(s) => Stmt::Verbatim(s),
    }
}

/// The folded form of a statement list: each element folded, order kept.
pub open spec fn folded_stmt_list(l: StmtList) -> StmtList
    decreases l,
{
    match l {
        StmtList::Nil => StmtList::Nil,
        StmtList::Cons(head, tail) => StmtList::Cons(
            Box::new(folded_stmt(*head)),
            Box::new(folded_stmt_list(*tail)),
        ),
    }
}

/// The folded form of a block.
pub open spec fn folded_block(b: Block) -> Block
    decreases b,
{
    Block { stmts: folded_stmt_list(b.stmts) }
}

/// The folded form of a signature: the asynchronous qualifier cleared,
/// everything else untouched.
pub open spec fn folded_signature(s: Signature) -> Signature {
    Signature { is_async: false, ident: s.ident, rest: s.rest }
}

/// The folded form of a function declaration.
pub open spec fn folded_fn_decl(d: FnDecl) -> FnDecl {
    FnDecl {
        attrs: d.attrs,
        vis: d.vis,
        sig: folded_signature(d.sig),
        body: folded_block(d.body),
    }
}

/// The folded form of a trait method declaration. A signature-only
/// method keeps its absent body.
pub open spec fn folded_trait_method_decl(d: TraitMethodDecl) -> TraitMethodDecl {
    TraitMethodDecl {
        attrs: d.attrs,
        sig: folded_signature(d.sig),
        body: match d.body {
            Some(b) => Some(folded_block(b)),
            None => None,
        },
    }
}

/// Whether an expression is free of asynchronous markers: no await and no
/// asynchronous block anywhere in it.
pub open spec fn expr_is_folded(e: Expr) -> bool
    decreases e,
{
    match e {
        Expr::Await(_) => false,
        Expr::Async { .. } => false,
        Expr::Block { attrs: _, label: _, block } => block_is_folded(block),
        Expr::Call { func, args } => expr_is_folded(*func) && expr_list_is_folded(args),
        Expr::MethodCall { receiver, method: _, args } => expr_is_folded(*receiver)
            && expr_list_is_folded(args),
        Expr::Path(_) => true,
        Expr::Lit(_) => true,
        Expr::MacroCall { .. } => true,
        Expr::Other { parts } => piece_list_is_folded(parts),
        Expr::Verbatim(_) => true,
    }
}

/// Whether one part of an opaque shape is free of markers.
pub open spec fn piece_is_folded(p: Piece) -> bool
    decreases p,
{
    match p {
        Piece::Text(_) => true,
        Piece::Expr(e) => expr_is_folded(e),
    }
}

/// Whether every part of an opaque shape is free of markers.
pub open spec fn piece_list_is_folded(l: PieceList) -> bool
    decreases l,
{
    match l {
        PieceList::Nil => true,
        PieceList::Cons(head, tail) => piece_is_folded(*head) && piece_list_is_folded(*tail),
    }
}

/// Whether every expression of an argument list is free of markers.
pub open spec fn expr_list_is_folded(l: ExprList) -> bool
    decreases l,
{
    match l {
        ExprList::Nil => true,
        ExprList::Cons(head, tail) => expr_is_folded(*head) && expr_list_is_folded(*tail),
    }
}

/// Whether a statement is free of asynchronous markers.
pub open spec fn stmt_is_folded(s: Stmt) -> bool
    decreases s,
{
    match s {
        Stmt::Local { pat: _, init } => match init {
            Some(e) => expr_is_folded(e),
            None => true,
        },
        Stmt::Expr(e) => expr_is_folded(e),
        Stmt::Semi(e) => expr_is_folded(e),
        Stmt::Verbatim(_) => true,
    }
}

/// Whether every statement of a list is free of markers.
pub open spec fn stmt_list_is_folded(l: StmtList) -> bool
    decreases l,
{
    match l {
        StmtList::Nil => true,
        StmtList::Cons(head, tail) => stmt_is_folded(*head) && stmt_list_is_folded(*tail),
    }
}

/// Whether a block is free of asynchronous markers.
pub open spec fn block_is_folded(b: Block) -> bool
    decreases b,
{
    stmt_list_is_folded(b.stmts)
}

/// Whether a whole function declaration is synchronous: no qualifier on
/// the signature and no marker in the body.
pub open spec fn fn_decl_is_folded(d: FnDecl) -> bool {
    !d.sig.is_async && block_is_folded(d.body)
}

/// Whether a whole trait method declaration is synchronous.
pub open spec fn trait_method_decl_is_folded(d: TraitMethodDecl) -> bool {
    !d.sig.is_async && match d.body {
        Some(b) => block_is_folded(b),
        None => true,
    }
}

/// The statements of a list, as a sequence, for stating order
/// preservation.
pub open spec fn stmt_list_seq(l: StmtList) -> Seq<Stmt>
    decreases l,
{
    match l {
        StmtList::Nil => Seq::empty(),
        StmtList::Cons(head, tail) => seq![*head] + stmt_list_seq(*tail),
    }
}

/// Folds one expression, bottom-up. No await and no asynchronous block
/// survives in the result.
pub fn fold_expr(e: Expr) -> (r: Expr)
    ensures
        r == folded_expr(e),
        expr_is_folded(r),
    decreases e,
{
    proof {
        crate::laws::lemma_folded_expr_is_folded(e);
    }
    match e {
        Expr::Await(inner) => fold_expr(*inner),
        Expr::Async { attrs, block } => Expr::Block {
            attrs,
            label: None,
            block: fold_block(block),
        },
        Expr::Block { attrs, label, block } => Expr::Block {
            attrs,
            label,
            block: fold_block(block),
        },
        Expr::Call { func, args } => Expr::Call {
            func: Box::new(fold_expr(*func)),
            args: fold_expr_list(args),
        },
        Expr::MethodCall { receiver, method, args } => Expr::MethodCall {
            receiver: Box::new(fold_expr(*receiver)),
            method,
            args: fold_expr_list(args),
        },
        Expr::Other { parts } => Expr::Other { parts: fold_piece_list(parts) },
        other => other,
    }
}

/// Folds one part of an opaque shape: a verbatim segment is kept, a
/// child expression is folded.
pub fn fold_piece(p: Piece) -> (r: Piece)
    ensures
        r == folded_piece(p),
    decreases p,
{
    match p {
        Piece::Text(s) => Piece::Text(s),
        Piece::Expr(e) => Piece::Expr(fold_expr(e)),
    }
}

/// Folds every part of an opaque shape, keeping the order.
pub fn fold_piece_list(l: PieceList) -> (r: PieceList)
    ensures
        r == folded_piece_list(l),
    decreases l,
{
    match l {
        PieceList::Nil => PieceList::Nil,
        PieceList::Cons(head, tail) => PieceList::Cons(
            Box::new(fold_piece(*head)),
            Box::new(fold_piece_list(*tail)),
        ),
    }
}

/// Folds every expression of an argument list, keeping the order.
pub fn fold_expr_list(l: ExprList) -> (r: ExprList)
    ensures
        r == folded_expr_list(l),
    decreases l,
{
    match l {
        ExprList::Nil => ExprList::Nil,
        ExprList::Cons(head, tail) => ExprList::Cons(
            Box::new(fold_expr(*head)),
            Box::new(fold_expr_list(*tail)),
        ),
    }
}

/// Folds the expressions nested in one statement.
pub fn fold_stmt(s: Stmt) -> (r: Stmt)
    ensures
        r == folded_stmt(s),
    decreases s,
{
    match s {
        Stmt::Local { pat, init } => match init {
            Some(e) => Stmt::Local { pat, init: Some(fold_expr(e)) },
            None => Stmt::Local { pat, init: None },
        },
        Stmt::Expr(e) => Stmt::Expr(fold_expr(e)),
        Stmt::Semi(e) => Stmt::Semi(fold_expr(e)),
        other => other,
    }
}

/// Folds every statement of a list, keeping the order.
pub fn fold_stmt_list(l: StmtList) -> (r: StmtList)
    ensures
        r == folded_stmt_list(l),
    decreases l,
{
    match l {
        StmtList::Nil => StmtList::Nil,
        StmtList::Cons(head, tail) => StmtList::Cons(
            Box::new(fold_stmt(*head)),
            Box::new(fold_stmt_list(*tail)),
        ),
    }
}

/// Folds a block. No marker survives in the result.
pub fn fold_block(b: Block) -> (r: Block)
    ensures
        r == folded_block(b),
        block_is_folded(r),
    decreases b,
{
    proof {
        crate::laws::lemma_folded_block_is_folded(b);
    }
    Block { stmts: fold_stmt_list(b.stmts) }
}

/// Folds a function declaration: clears the asynchronous qualifier on the
/// signature and rewrites the body.
pub fn fold_item_fn(d: FnDecl) -> (r: FnDecl)
    ensures
        r == folded_fn_decl(d),
        fn_decl_is_folded(r),
{
    proof {
        crate::laws::lemma_folded_block_is_folded(d.body);
    }
    FnDecl {
        attrs: d.attrs,
        vis: d.vis,
        sig: Signature { is_async: false, ident: d.sig.ident, rest: d.sig.rest },
        body: fold_block(d.body),
    }
}

/// Folds a trait method declaration: clears the asynchronous qualifier
/// and rewrites the default body, if one is present.
pub fn fold_trait_item_method(d: TraitMethodDecl) -> (r: TraitMethodDecl)
    ensures
        r == folded_trait_method_decl(d),
        trait_method_decl_is_folded(r),
{
    proof {
        match &d.body {
            Some(b) => crate::laws::lemma_folded_block_is_folded(*b),
            None => {},
        }
    }
    TraitMethodDecl {
        attrs: d.attrs,
        sig: Signature { is_async: false, ident: d.sig.ident, rest: d.sig.rest },
        body: match d.body {
            Some(b) => Some(fold_block(b)),
            None => None,
        },
    }
}

} // verus!
