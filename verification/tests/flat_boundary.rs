//! The flat interop surface and the pure evaluation functions behind the
//! predicates.

use zk_circuits::boundary::{
    generate_trust_proof, mock_proof_data, test_trust_score_circuit, verify_trust_proof,
    TrustScoreParams,
};
use zk_circuits::encoding::{field_repr, field_to_u64};
use zk_circuits::identity::eval_commitment;
use zk_circuits::income_range::eval_range;
use zk_circuits::lifecycle::decide_verification;
use zk_circuits::loan_history::{calculate_success_rate, meets_success_rate_threshold};
use zk_circuits::trust_score::eval_threshold;
use zk_circuits::ZkError;

#[test]
fn test_threshold_boundary_literals() {
    assert!(eval_threshold(70, 70));
    assert!(!eval_threshold(69, 70));
    assert!(eval_threshold(85, 70));
}

#[test]
fn test_range_boundary_literals() {
    assert!(eval_range(30000, 30000, 80000));
    assert!(eval_range(80000, 30000, 80000));
    assert!(!eval_range(80001, 30000, 80000));
}

#[test]
fn test_commitment_boundary_literals() {
    assert!(eval_commitment(12345, 12345));
    assert!(!eval_commitment(12345, 54321));
}

#[test]
fn test_ratio_boundary_literals() {
    // 8 of 10 repayments is exactly 80.00%.
    assert!(meets_success_rate_threshold(10, 8, 8000));
    // Zero loans means a zero rate, below any positive minimum.
    assert!(!meets_success_rate_threshold(0, 0, 1));
}

#[test]
fn test_success_rate_exact_values() {
    assert_eq!(calculate_success_rate(10, 9), 9000);
    assert_eq!(calculate_success_rate(10, 8), 8000);
    assert_eq!(calculate_success_rate(0, 0), 0);
    assert_eq!(calculate_success_rate(3, 1), 3333);
}

#[test]
fn test_field_repr_roundtrip() {
    let value = 123456789u64;
    let repr = field_repr(value);
    assert_eq!(repr.len(), 32);
    assert_eq!(field_to_u64(&repr), value);

    let repr_max = field_repr(u64::MAX);
    assert_eq!(field_to_u64(&repr_max), u64::MAX);
}

#[test]
fn test_mock_proof_bytes() {
    assert_eq!(mock_proof_data(), b"mock_proof_data".to_vec());
}

#[test]
fn test_flat_generation_success() {
    // The artifact is the placeholder prefix with the instance byte bound
    // into it: 1 for a true predicate.
    let outcome = generate_trust_proof(75, 70);
    assert!(outcome.success);
    let mut expected = b"mock_proof_data".to_vec();
    expected.push(1);
    assert_eq!(outcome.proof_data, expected);
    assert!(outcome.error.is_none());

    // A failing predicate still generates; the artifact binds `false`.
    let outcome_below = generate_trust_proof(65, 70);
    assert!(outcome_below.success);
    let mut expected_below = b"mock_proof_data".to_vec();
    expected_below.push(0);
    assert_eq!(outcome_below.proof_data, expected_below);
}

#[test]
fn test_flat_generation_beyond_one_byte() {
    // The instance is recomputed by the same byte-wise evaluation the
    // assignment uses, so generation succeeds on every witness; byte-wise,
    // 256 orders below 1 (its least significant byte is 0), so the bound
    // boolean is false.
    let outcome = generate_trust_proof(256, 1);
    assert!(outcome.success);
    assert_eq!(outcome.proof_data.last(), Some(&0u8));
}

#[test]
fn test_flat_verification() {
    let proof = generate_trust_proof(75, 70).proof_data;
    assert!(verify_trust_proof(&proof, 70, true));

    // A claim that disagrees with the boolean the artifact was generated
    // for is rejected.
    assert!(!verify_trust_proof(&proof, 70, false));

    let mut tampered = proof.clone();
    tampered[0] = 0;
    assert!(!verify_trust_proof(&tampered, 70, true));

    // The bare placeholder without the bound instance byte is no artifact.
    let truncated = b"mock_proof_data".to_vec();
    assert!(!verify_trust_proof(&truncated, 70, true));
}

#[test]
fn test_flat_mismatch_rejected() {
    let for_false = generate_trust_proof(65, 70).proof_data;
    assert!(verify_trust_proof(&for_false, 70, false));
    assert!(!verify_trust_proof(&for_false, 70, true));
}

#[test]
fn test_flat_verification_empty_input() {
    let empty: Vec<u8> = Vec::new();
    assert!(!verify_trust_proof(&empty, 70, true));
    assert!(!verify_trust_proof(&empty, 70, false));
}

#[test]
fn test_flat_verification_idempotent() {
    let proof = generate_trust_proof(75, 70).proof_data;
    assert_eq!(
        verify_trust_proof(&proof, 70, true),
        verify_trust_proof(&proof, 70, true),
    );
}

#[test]
fn test_mock_circuit_evaluation() {
    assert_eq!(test_trust_score_circuit(75, 70), Ok(true));
    assert_eq!(test_trust_score_circuit(65, 70), Ok(true));
    assert_eq!(test_trust_score_circuit(70, 70), Ok(true));
}

#[test]
fn test_decide_verification_outcomes() {
    assert_eq!(decide_verification(false, 10, true), Err(ZkError::SystemNotInitialized));
    assert_eq!(decide_verification(true, 0, true), Err(ZkError::MalformedInput));
    assert_eq!(decide_verification(true, 10, true), Ok(true));
    assert_eq!(decide_verification(true, 10, false), Ok(false));
}

#[test]
fn test_trust_score_params_fields() {
    let params = TrustScoreParams { trust_score: 85, threshold: 70 };
    assert_eq!(params.trust_score, 85);
    assert_eq!(params.threshold, 70);
}
