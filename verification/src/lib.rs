//! Gate-evaluation engine of an interactive zero-knowledge proof backend.
//!
//! Two cooperating roles, a Prover holding secret values and a Verifier
//! holding none, jointly evaluate an arithmetic circuit over a finite field
//! while producing evidence that every gate was evaluated correctly.  The
//! crate provides authenticated-value arithmetic, a batched zero-assertion
//! queue, a multiplication-consistency accumulator, and the poisoning /
//! finalize protocol, together with the finite fields the evaluators run
//! over.

pub mod backend;
pub mod channel;
pub mod error;
pub mod f40b;
pub mod f61p;
pub mod field;
pub mod gf128;
pub mod laws;
pub mod prg;
