//! The tree model: the unit of transformation is one declaration, either a
//! function or a trait method, whose body is a block of statements over a
//! recursive expression grammar.
//!
//! Only the node kinds the fold rewrites are fully structured: the await
//! expression and the asynchronous block, along with the commonest shapes
//! around them (ordinary blocks, calls, method calls, `let` statements).
//! Every other expression shape is an opaque payload that the traversal
//! must still recurse into: it is held as [`Expr::Other`], an ordered
//! interleaving of verbatim token segments with the child expressions the
//! shape owns — the segments and the shape are preserved byte for byte,
//! the children are folded. The two deliberate exceptions, whose insides
//! the traversal never reaches: the arguments of a macro invocation
//! (unexpanded tokens, out of scope by design) and atomic token text with
//! no expression structure at all.

use vstd::prelude::*;

verus! {

/// An expression of the host grammar, structured only as far as the fold
/// needs to see.
#[derive(Debug, PartialEq, Eq)]
pub enum Expr {
    /// A suspension point: awaits its single operand.
    Await(Box<Expr>),
    /// An anonymous asynchronous block, with its own attribute list.
    Async { attrs: Vec<String>, block: Block },
    /// An ordinary block expression, with attributes and an optional label.
    Block { attrs: Vec<String>, label: Option<String>, block: Block },
    /// A call: callee and arguments.
    Call { func: Box<Expr>, args: ExprList },
    /// A method call: receiver, method name and arguments.
    MethodCall { receiver: Box<Expr>, method: String, args: ExprList },
    /// A path or identifier, carried verbatim.
    Path(String),
    /// A literal, carried verbatim.
    Lit(String),
    /// A macro invocation: path and unexpanded, delimited argument
    /// tokens. The arguments are opaque to the traversal and are never
    /// rewritten.
    MacroCall { path: String, tokens: String },
    /// Any other expression shape: its own tokens as ordered opaque
    /// segments, interleaved with the child expressions it owns. The
    /// traversal recurses into the children and keeps the segments and
    /// their order untouched.
    Other { parts: PieceList },
    /// Atomic opaque token text owning no child expression.
    Verbatim(String),
}

/// One part of an [`Expr::Other`] shape: either a verbatim token segment
/// of the shape itself, or one of the child expressions it owns.
#[derive(Debug, PartialEq, Eq)]
pub enum Piece {
    Text(String),
    Expr(Expr),
}

/// The ordered parts of an [`Expr::Other`] shape.
#[derive(Debug, PartialEq, Eq)]
pub enum PieceList {
    Nil,
    Cons(Box<Piece>, Box<PieceList>),
}

/// An argument list: the ordered expressions of a call.
#[derive(Debug, PartialEq, Eq)]
pub enum ExprList {
    Nil,
    Cons(Box<Expr>, Box<ExprList>),
}

/// One statement of a block.
#[derive(Debug, PartialEq, Eq)]
pub enum Stmt {
    /// A `let` binding: pattern text and optional initializer expression.
    Local { pat: String, init: Option<Expr> },
    /// A trailing expression without a semicolon.
    Expr(Expr),
    /// An expression statement ended by a semicolon.
    Semi(Expr),
    /// An opaque statement or nested item, carried verbatim.
    Verbatim(String),
}

/// The ordered statements of a block.
#[derive(Debug, PartialEq, Eq)]
pub enum StmtList {
    Nil,
    Cons(Box<Stmt>, Box<StmtList>),
}

/// An ordered sequence of statements, exclusively owned by its enclosing
/// declaration or expression.
#[derive(Debug, PartialEq, Eq)]
pub struct Block {
    pub stmts: StmtList,
}

/// A declaration's signature. The asynchronous qualifier is the one part
/// the fold must clear; the name and the remaining tokens (generics,
/// parameters, return type) are preserved verbatim.
#[derive(Debug, PartialEq, Eq)]
pub struct Signature {
    pub is_async: bool,
    pub ident: String,
    pub rest: String,
}

/// A function declaration: attributes, visibility, signature and body.
#[derive(Debug, PartialEq, Eq)]
pub struct FnDecl {
    pub attrs: Vec<String>,
    pub vis: String,
    pub sig: Signature,
    pub body: Block,
}

/// A trait method declaration: attributes, signature, and an optional
/// default body. A signature-only method has no body to recurse into.
#[derive(Debug, PartialEq, Eq)]
pub struct TraitMethodDecl {
    pub attrs: Vec<String>,
    pub sig: Signature,
    pub body: Option<Block>,
}

/// What dispatch produces: exactly one of a folded function declaration,
/// a folded trait method declaration, or the fixed diagnostic.
#[derive(Debug, PartialEq, Eq)]
pub enum FoldOutcome {
    Function(FnDecl),
    TraitMethod(TraitMethodDecl),
    Unsupported,
}

impl ExprList {
    /// The empty argument list.
    pub fn nil() -> (r: ExprList)
        ensures
            r == ExprList::Nil,
    {
        ExprList::Nil
    }

    /// Prepends one argument to a list.
    pub fn cons(head: Expr, tail: ExprList) -> (r: ExprList)
        ensures
            r == ExprList::Cons(Box::new(head), Box::new(tail)),
    {
        ExprList::Cons(Box::new(head), Box::new(tail))
    }
}

impl PieceList {
    /// The empty part list.
    pub fn nil() -> (r: PieceList)
        ensures
            r == PieceList::Nil,
    {
        PieceList::Nil
    }

    /// Prepends one part to a list.
    pub fn cons(head: Piece, tail: PieceList) -> (r: PieceList)
        ensures
            r == PieceList::Cons(Box::new(head), Box::new(tail)),
    {
        PieceList::Cons(Box::new(head), Box::new(tail))
    }
}

impl StmtList {
    /// The empty statement list.
    pub fn nil() -> (r: StmtList)
        ensures
            r == StmtList::Nil,
    {
        StmtList::Nil
    }

    /// Prepends one statement to a list.
    pub fn cons(head: Stmt, tail: StmtList) -> (r: StmtList)
        ensures
            r == StmtList::Cons(Box::new(head), Box::new(tail)),
    {
        StmtList::Cons(Box::new(head), Box::new(tail))
    }
}

} // verus!
