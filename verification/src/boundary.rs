//! The flat interop surface: plain-scalar requests, explicit result
//! payloads, and the placeholder proof path backed by the direct constraint
//! evaluation instead of the proving backend.
//!
//! The flat artifact binds the boolean it was generated for: it is the
//! placeholder bytes with the published instance byte appended, and the
//! flat verification checks the claimed result against that byte, so a
//! claim that disagrees with the boolean the proof was built for is
//! rejected.  The host-facing shells (raw buffers, ownership hand-off, the
//! matching free operation) live outside the library; everything here works
//! on owned values and is verified.  Null and empty inputs fail closed:
//! they return `false` or an error, never fault.

use vstd::prelude::*;
use crate::ZkError;
use crate::layout::{instance_of, spec_instance_of};
use crate::trust_score::{TrustScoreCircuit, eval_threshold, spec_threshold_met};

verus! {

/// Parameters for trust score proof generation.
#[derive(Clone, Copy, PartialEq, Eq, Structural, Debug)]
pub struct TrustScoreParams {
    pub trust_score: u64,
    pub threshold: u64,
}

/// Result of a flat proof operation: a success flag, the proof bytes owned
/// by the structure, and the error the operation failed with, if any.
pub struct ProofOutcome {
    pub success: bool,
    pub proof_data: Vec<u8>,
    pub error: Option<ZkError>,
}

/// The placeholder bytes every flat artifact starts with: the ASCII bytes
/// of `mock_proof_data`.
pub open spec fn spec_mock_proof() -> Seq<u8> {
    seq![
        109u8,
        111u8,
        99u8,
        107u8,
        95u8,
        112u8,
        114u8,
        111u8,
        111u8,
        102u8,
        95u8,
        100u8,
        97u8,
        116u8,
        97u8,
    ]
}

/// The flat proof artifact for a published boolean: the placeholder bytes
/// with the instance byte appended, binding the boolean the proof was
/// generated for.
pub open spec fn spec_flat_proof(result: bool) -> Seq<u8> {
    spec_mock_proof().push(spec_instance_of(result) as u8)
}

/// Builds the placeholder byte prefix of the flat artifacts.
pub fn mock_proof_data() -> (v: Vec<u8>)
    ensures
        v@ == spec_mock_proof(),
{
    let mut v: Vec<u8> = Vec::new();
    v.push(109);
    v.push(111);
    v.push(99);
    v.push(107);
    v.push(95);
    v.push(112);
    v.push(114);
    v.push(111);
    v.push(111);
    v.push(102);
    v.push(95);
    v.push(100);
    v.push(97);
    v.push(116);
    v.push(97);
    proof {
        assert(v@ =~= spec_mock_proof());
    }
    v
}

/// Runs the trust score circuit under the direct constraint evaluation,
/// against the public instance recomputed by the same evaluation the
/// assignment uses.  Since the two agree bit for bit, the constraint system
/// is always satisfied: the mock path's completeness.
pub fn test_trust_score_circuit(trust_score: u32, threshold: u32) -> (r: Result<bool, ZkError>)
    ensures
        r == Ok::<bool, ZkError>(true),
{
    let circuit = TrustScoreCircuit::new(Some(trust_score as u64), threshold as u64);

    let expected_result = eval_threshold(trust_score as u64, threshold as u64);
    let mut public_inputs: Vec<u64> = Vec::new();
    public_inputs.push(instance_of(expected_result));

    let ok = circuit.mock_check(&public_inputs);
    Ok(ok)
}

/// The flat proof generation: evaluates the trust score circuit directly
/// against the instance recomputed by the same evaluation the assignment
/// uses, and hands out the flat artifact binding the published boolean.
/// The recomputation agrees with the assignment bit for bit, so generation
/// always succeeds.
pub fn generate_trust_proof(trust_score: u64, threshold: u64) -> (r: ProofOutcome)
    ensures
        r.success,
        r.proof_data@ == spec_flat_proof(spec_threshold_met(trust_score, threshold)),
        r.error is None,
{
    let circuit = TrustScoreCircuit::new(Some(trust_score), threshold);

    let met = eval_threshold(trust_score, threshold);
    let instance_value = instance_of(met);
    let mut public_inputs: Vec<u64> = Vec::new();
    public_inputs.push(instance_value);

    if circuit.mock_check(&public_inputs) {
        let mut proof_data = mock_proof_data();
        proof_data.push(instance_value as u8);
        ProofOutcome { success: true, proof_data, error: None }
    } else {
        ProofOutcome {
            success: false,
            proof_data: Vec::new(),
            error: Some(ZkError::ProofGenerationFailure),
        }
    }
}

/// The flat proof verification: true exactly when the submitted bytes are
/// the flat artifact for the claimed result.  The claim is checked against
/// the instance byte bound into the artifact, so a claim that disagrees
/// with the boolean the proof was generated for is rejected; an empty
/// sequence is never an artifact, so empty input fails closed with
/// `false`.
pub fn verify_trust_proof(proof_data: &Vec<u8>, _threshold: u64, expected_result: bool) -> (r:
    bool)
    ensures
        r == (proof_data@ == spec_flat_proof(expected_result)),
{
    let mut expected = mock_proof_data();
    expected.push(instance_of(expected_result) as u8);
    proof {
        assert(expected@ =~= spec_flat_proof(expected_result));
    }
    let n = proof_data.len();
    if n != expected.len() {
        return false;
    }
    let mut i: usize = 0;
    while i < n
        invariant
            i <= n,
            n == proof_data@.len() == expected@.len(),
            expected@ == spec_flat_proof(expected_result),
            forall|j: int| 0 <= j < i ==> proof_data@[j] == expected@[j],
        decreases n - i,
    {
        if proof_data[i] != expected[i] {
            return false;
        }
        i = i + 1;
    }
    proof {
        assert(proof_data@ =~= spec_flat_proof(expected_result));
    }
    true
}

/// The flat artifact binds its boolean: it passes verification under a
/// claimed result exactly when the claim equals the boolean it was
/// generated for — mismatch rejection and completeness of the flat path in
/// one statement.
pub proof fn lemma_flat_claim_binding(generated_for: bool, claimed: bool)
    ensures
        (spec_flat_proof(generated_for) == spec_flat_proof(claimed)) == (generated_for == claimed),
{
    if generated_for != claimed {
        assert(spec_flat_proof(generated_for)[15] != spec_flat_proof(claimed)[15]);
    }
}

/// An empty byte sequence never passes the flat verifier: every flat
/// artifact is sixteen bytes long.
pub proof fn lemma_empty_proof_rejected(proof: Seq<u8>, claimed: bool)
    requires
        proof.len() == 0,
    ensures
        proof != spec_flat_proof(claimed),
{
    assert(spec_flat_proof(claimed).len() == 16);
}

/// Flat verification answers are a function of the submitted bytes and the
/// claimed result alone: any two results that meet the verifier's contract
/// on the same arguments are equal.
pub proof fn lemma_trust_proof_deterministic(proof: Seq<u8>, claimed: bool, r1: bool, r2: bool)
    requires
        r1 == (proof == spec_flat_proof(claimed)),
        r2 == (proof == spec_flat_proof(claimed)),
    ensures
        r1 == r2,
{
}

} // verus!
