//! A hash-linked chain of text records: every block stores the SHA-256
//! digest of its predecessor, and verification recomputes those digests to
//! detect tampering.

pub mod decimal;
pub mod digest;
pub mod block;
pub mod chain;
pub mod laws;
