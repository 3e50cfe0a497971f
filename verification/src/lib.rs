//! Folding proofs for chunked evaluation traces.

pub mod circuit;
pub mod eval;
pub mod folding;
pub mod laws;
pub mod nova;
pub mod prover;
pub mod r1cs;
pub mod store;
