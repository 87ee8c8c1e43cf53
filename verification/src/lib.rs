//! A linear type discipline for Rust values: a wrapped value must be
//! consumed exactly once, through an explicit destructuring operation or a
//! combinator that performs one internally.
//!
//! The [`cell::Linear`] wrapper carries the value through a chain of
//! transformations; every combinator consumes the current cell and produces a
//! freshly wrapped one, so the payload is never reachable twice. The
//! [`guard`] module holds the verified decision logic for the drop-time
//! violation detector that an enforcement shell installs around a cell.

pub mod cell;
pub mod guard;

pub use cell::Linear;
pub use guard::{drop_verdict, Policy, Verdict};
