//! Verified core of the Python bindings for XMSS multi-signature aggregation:
//! the SSZ containers that carry proof blobs, and the checks that the
//! binding layer applies to its arguments before and after it hands them to
//! the aggregation prover and verifier.

pub mod container;
pub mod error;
pub mod message;
pub mod checks;
