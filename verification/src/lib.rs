//! Seeded 64-bit signatures for the 3x3 neighborhoods of a grid of samples.
//!
//! The [`mixer`] folds nine 32-bit samples and a 64-bit seed into one
//! signature by rounds of exclusive-or and multiplication modulo 2^64. The
//! [`walker`] applies it to a single neighborhood, or to every interior cell
//! of a row-major grid, and leaves the one-cell border of the signature
//! buffer as the caller filled it.

pub mod mixer;
pub mod walker;

pub use crate::mixer::compute_hash_vectorized;
pub use crate::walker::{compute_signature_3x3, compute_signatures};
