//! Derivation of approximate-equality comparisons (`approx::AbsDiffEq` and
//! `approx::RelativeEq`) for record types.
//!
//! The input is a record described by plain values: its name, its generics
//! clause, and its fields with their declared types and `approx(...)`
//! annotations. The annotations are parsed into configuration records, the
//! tolerance type and defaults are resolved, and the two trait impls are
//! emitted as source text.
pub mod attrs;
pub mod plan;
pub mod codegen;
pub mod laws;

pub use codegen::{derive_abs_diff_eq, derive_rel_diff_eq};
