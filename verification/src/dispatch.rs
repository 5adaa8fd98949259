//! Dispatch over the two accepted declaration shapes.
//!
//! The caller's build pipeline attempts to read its raw input first as a
//! function declaration, then as a trait method declaration, in that
//! order, and hands the outcomes of the two attempts here. Exactly one of
//! three results is produced: the folded function, the folded trait
//! method, or the fixed diagnostic for an unsupported shape — never
//! malformed or partial output, and never a panic.

use vstd::prelude::*;

use crate::ast::FnDecl;
use crate::ast::FoldOutcome;
use crate::ast::TraitMethodDecl;
use crate::fold::fold_item_fn;
use crate::fold::fold_trait_item_method;
use crate::fold::folded_fn_decl;
use crate::fold::folded_trait_method_decl;

verus! {

/// The fixed human-readable diagnostic for an input that is neither a
/// function nor a trait method declaration.
pub open spec fn unsupported_shape_message() -> Seq<char> {
    "remove_async_await currently only supports functions and trait methods. if you are using it on a supported type, parsing probably failed; please ensure the input is valid Rust."@
}

/// Folds one declaration, chosen from the two parse attempts in order: a
/// function declaration wins over a trait method declaration, and when
/// both attempts failed the outcome is the unsupported-shape diagnostic.
pub fn remove_async_await(
    as_function: Option<FnDecl>,
    as_trait_method: Option<TraitMethodDecl>,
) -> (r: FoldOutcome)
    ensures
        (match as_function {
            Some(f) => r == FoldOutcome::Function(folded_fn_decl(f)),
            None => match as_trait_method {
                Some(m) => r == FoldOutcome::TraitMethod(folded_trait_method_decl(m)),
                None => r == FoldOutcome::Unsupported,
            },
        }),
{
    match as_function {
        Some(f) => FoldOutcome::Function(fold_item_fn(f)),
        None => match as_trait_method {
            Some(m) => FoldOutcome::TraitMethod(fold_trait_item_method(m)),
            None => FoldOutcome::Unsupported,
        },
    }
}

/// The diagnostic text to emit as a compile-time error marker in place of
/// transformed output.
pub fn diagnostic_message() -> (r: String)
    ensures
        r@ == unsupported_shape_message(),
{
    "remove_async_await currently only supports functions and trait methods. if you are using it on a supported type, parsing probably failed; please ensure the input is valid Rust.".to_owned()
}

} // verus!
