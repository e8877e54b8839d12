//! A non-interactive Schnorr identification scheme bound to a location claim.
//!
//! Group elements and scalars are arbitrary-precision natural numbers,
//! carried everywhere as canonical decimal strings; `digits` gives that
//! encoding its mathematical meaning and `arith` the modular arithmetic
//! facts the protocol proofs rest on.  `crypto` holds the group
//! parameters and the big-integer primitives, `zkp` the prover and the
//! verifier, `rbac` the role tables that callers bind proofs to, and
//! `access` the door-side decision that consumes a verified proof.

pub mod access;
pub mod arith;
pub mod crypto;
pub mod digits;
pub mod rbac;
pub mod zkp;
