//! Mirror implementations for symmetric relation interfaces.
//!
//! A relation interface `F<Other>` describes a two-operand operation that is
//! meant to be symmetric: `a.f(b)` is `b.f(a)`. From one hand-written
//! implementation of `F<B>` for `A`, this crate derives the implementation of
//! `F<A>` for `B`, every method of which hands its operands, in swapped order,
//! to the hand-written one.
//!
//! - [`interface`] and [`record`] hold the implementation record: what is
//!   read of it taken apart, the rest carried as text.
//! - [`validate`] decides whether a record qualifies, and names the first
//!   rule that it breaks where it does not ([`error`]).
//! - [`transform`] builds the mirror of a record that qualifies.
//! - [`render`] writes a record as source text.
//! - [`tokens`] builds the token stream that is emitted: the record followed
//!   by its mirror, or a `compile_error!` call in their place.
//! - [`laws`] states what holds of every mirror.

pub mod interface;
pub mod record;
pub mod error;
pub mod validate;
pub mod transform;
pub mod render;
pub mod tokens;
pub mod laws;
