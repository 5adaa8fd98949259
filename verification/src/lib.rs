//! Turns asynchronous declarations into blocking ones.
//!
//! A function or trait-method declaration written with asynchronous
//! qualifiers is rewritten into a semantically equivalent synchronous
//! version: the qualifier is dropped from the signature, every suspension
//! point collapses to its wrapped expression, and every anonymous
//! asynchronous block becomes an ordinary block.
//!
//! Two independent strategies are offered:
//!
//! - the structural folder ([`dispatch::remove_async_await`]), a
//!   type-directed rewrite of a declaration tree ([`ast`]), total over the
//!   modelled grammar and proved correct against the fold semantics in
//!   [`fold`];
//! - the literal substitution fallback
//!   ([`fallback::remove_async_await_string`]), two unconditional
//!   substring removals over raw text, with no structural guarantees.
//!
//! [`laws`] states and proves the properties that relate the two rewrite
//! rules and the traversal: idempotence, full collapse of chained
//! suspension points, and preservation of everything the rewrite does not
//! name.

pub mod ast;
pub mod dispatch;
pub mod fallback;
pub mod fold;
pub mod laws;
