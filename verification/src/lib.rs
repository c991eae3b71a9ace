//! A rewrite of the `?` operator into an explicit `match` on
//! [`Try::branch`], so that any type with an implementation of [`Try`] and
//! [`FromResidual`] can be used with `?`.
//!
//! The rewrite works on a syntax tree of its own ([`tree`]), in which the
//! expressions of the source are recognised and everything else is kept as
//! the tokens it was written with ([`token`]). [`try_macro`] rewrites an item
//! and [`try_macro_block`] the statements of a block ([`transform`]). What a
//! `?` is replaced with is said in [`expand`], what the rewrite makes of a
//! whole tree in [`visit`], and what holds of the result in [`laws`] and
//! [`written`]. A tree is written out again by [`print`], and [`scan`] says
//! whether a `?` is left in one. [`selfcheck`] holds the rewrite against a
//! few sources whose rewritten form is known.
//!
//! Reading source text into a tree is left to the caller, and so is turning
//! a [`diagnostic`] into an error that the author of the source gets to see.

pub mod diagnostic;
pub mod expand;
pub mod laws;
pub mod print;
pub mod scan;
pub mod selfcheck;
pub mod token;
pub mod transform;
pub mod tree;
pub mod visit;
pub mod written;

pub use stable_try_trait_v2::{FromResidual, Residual, Try};
pub use transform::{try_macro, try_macro_block};
