//! A typed conversion layer between a dynamically-typed host runtime's
//! values and statically-typed native values.
//!
//! The heart of the crate is the pair of capability traits in [`types`]:
//! [`types::FromLisp`] turns a host value into a native value, and
//! [`types::IntoLisp`] turns a native value into a host value, given a
//! handle to the active runtime context.  Compositional adapters (identity,
//! optional, unit, boolean, sequence) are built on the two traits alone, so
//! new leaf types compose with them without touching this crate.
//!
//! [`host`] models the host runtime itself: its tagged values, its two
//! canonical symbols, its runtime context, and its fixed-length vectors.

pub mod host;
pub mod types;
pub mod laws;
