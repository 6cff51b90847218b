//! Resugaring of elaborated core terms into surface syntax.
//!
//! The translation turns locally-nameless core terms back into concrete syntax
//! trees: it reconstructs the parentheses that the precedence grammar needs,
//! names bound variables after their binders, collapses non-dependent function
//! types to arrows, flattens record chains and hoists the leading parameters of
//! definitions into their headers.
//!
//! Bound variables are displayed by the name hints that their scopes carry, as
//! they stand: a hint that an inner binder reuses is not renamed, so a term
//! whose binders shadow each other may render ambiguously.
//!
//! - [`prec`]: the precedence classes of syntactic positions.
//! - [`core_syntax`]: core terms, values, definitions and modules.
//! - [`concrete`]: the surface syntax that the translation produces.
//! - [`resugar`]: the term translation and its specification.
//! - [`quote`]: the read-back of values into core terms.
//! - [`translate`]: the [`ToConcrete`] entry points.
//! - [`laws`]: properties of the translation, proved.

pub mod concrete;
pub mod core_syntax;
pub mod laws;
pub mod prec;
pub mod quote;
pub mod resugar;
pub mod translate;

pub use prec::Prec;
pub use translate::ToConcrete;
