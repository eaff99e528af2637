//! Core of a parallel genetic-algorithm optimizer.
//!
//! The crate models candidate solutions as genomes: two fixed-length byte
//! sequences (one binary flag per structural node, and grouped sub-encodings
//! per mastery slot) together with a fitness mark. Genomes are backed by a
//! pool of pre-allocated buffers that are checked out and reused across
//! generations, mutated and recombined by the genetic operators, and scored
//! by an external policy reached through a per-worker command/result
//! protocol.

pub mod dna;
pub mod worker;
