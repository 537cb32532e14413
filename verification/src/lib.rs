//! Privacy-preserving boolean predicates over private numeric and identity
//! attributes: a prover shows that a predicate holds — a trust score meets a
//! threshold, an income lies in a range, an identity datum matches a
//! commitment, a repayment ratio meets a minimum — while only the boolean
//! outcome is published.
//!
//! The crate has two tightly coupled parts.  The predicate-circuit
//! abstraction (`layout`, plus the four predicate modules) declares the
//! column/gate shape every predicate shares and carries the
//! witness-assignment contract: what each assignment writes, and which
//! boolean the published instance must equal.  The proof lifecycle
//! (`lifecycle`, `boundary`) manages setup parameters and keys, decides
//! when proving and verification are allowed and with which error every
//! refusal is answered, and exposes a flat, allocation-explicit surface for
//! non-managed callers.  The proving backend itself is an external
//! collaborator, reached through a handful of trusted wrappers; everything
//! around those calls is verified.

pub mod boundary;
pub mod encoding;
pub mod identity;
pub mod income_range;
pub mod layout;
pub mod lifecycle;
pub mod loan_history;
pub mod optimizations;
pub mod trust_score;

use vstd::prelude::*;

verus! {

/// Errors of the proof lifecycle and of the interop boundary.
#[derive(Clone, Copy, PartialEq, Eq, Structural, Debug)]
pub enum ZkError {
    SystemNotInitialized,
    KeyGenerationFailure,
    ProofGenerationFailure,
    MalformedInput,
}

} // verus!
