//! The predicate circuits, checked by direct constraint evaluation: each
//! test assigns concrete witnesses and asserts that the published instance
//! satisfies every gate and copy constraint.

use zk_circuits::identity::{create_commitment, simple_hash, verify_commitment, IdentityCircuit};
use zk_circuits::income_range::IncomeRangeCircuit;
use zk_circuits::layout::WitnessValue;
use zk_circuits::loan_history::LoanHistoryCircuit;
use zk_circuits::optimizations::MobileTrustScoreCircuit;
use zk_circuits::trust_score::TrustScoreCircuit;

#[test]
fn test_trust_score_above_threshold() {
    let trust_score = 85u64;
    let threshold = 70u64;

    let circuit = TrustScoreCircuit::new(Some(trust_score), threshold);

    // The public input should be 1 (true) since 85 >= 70.
    let public_inputs = vec![1u64];

    assert!(circuit.mock_check(&public_inputs));
}

#[test]
fn test_trust_score_below_threshold() {
    let trust_score = 65u64;
    let threshold = 70u64;

    let circuit = TrustScoreCircuit::new(Some(trust_score), threshold);

    // The public input should be 0 (false) since 65 < 70.
    let public_inputs = vec![0u64];

    assert!(circuit.mock_check(&public_inputs));
}

#[test]
fn test_trust_score_equal_threshold() {
    let trust_score = 70u64;
    let threshold = 70u64;

    let circuit = TrustScoreCircuit::new(Some(trust_score), threshold);

    // The public input should be 1 (true) since 70 >= 70.
    let public_inputs = vec![1u64];

    assert!(circuit.mock_check(&public_inputs));
}

#[test]
fn trust_score_test_circuit_without_witnesses() {
    let threshold = 70u64;

    let circuit = TrustScoreCircuit::new(None, threshold);
    let circuit_without_witnesses = circuit.without_witnesses();

    let _ = circuit_without_witnesses;
}

#[test]
fn test_income_in_range() {
    let income = 50000u64;
    let min_range = 30000u64;
    let max_range = 80000u64;

    let circuit = IncomeRangeCircuit::new(Some(income), min_range, max_range);

    // The public input should be 1 (true) since 50000 is in [30000, 80000].
    let public_inputs = vec![1u64];

    assert!(circuit.mock_check(&public_inputs));
}

#[test]
fn test_income_below_range() {
    let income = 25000u64;
    let min_range = 30000u64;
    let max_range = 80000u64;

    let circuit = IncomeRangeCircuit::new(Some(income), min_range, max_range);

    // The public input should be 0 (false) since 25000 < 30000.
    let public_inputs = vec![0u64];

    assert!(circuit.mock_check(&public_inputs));
}

#[test]
fn test_income_above_range() {
    let income = 90000u64;
    let min_range = 30000u64;
    let max_range = 80000u64;

    let circuit = IncomeRangeCircuit::new(Some(income), min_range, max_range);

    // The public input should be 0 (false) since 90000 > 80000.
    let public_inputs = vec![0u64];

    assert!(circuit.mock_check(&public_inputs));
}

#[test]
fn test_income_at_range_boundaries() {
    // At the minimum boundary.
    let circuit1 = IncomeRangeCircuit::new(Some(30000), 30000, 80000);
    let public_inputs1 = vec![1u64];
    assert!(circuit1.mock_check(&public_inputs1));

    // At the maximum boundary.
    let circuit2 = IncomeRangeCircuit::new(Some(80000), 30000, 80000);
    let public_inputs2 = vec![1u64];
    assert!(circuit2.mock_check(&public_inputs2));
}

#[test]
fn test_income_just_above_maximum() {
    // One past the maximum boundary: 80001 is not in [30000, 80000].
    let circuit = IncomeRangeCircuit::new(Some(80001), 30000, 80000);
    let public_inputs = vec![0u64];
    assert!(circuit.mock_check(&public_inputs));
}

#[test]
fn income_range_test_circuit_without_witnesses() {
    let min_range = 30000u64;
    let max_range = 80000u64;

    let circuit = IncomeRangeCircuit::new(None, min_range, max_range);
    let circuit_without_witnesses = circuit.without_witnesses();

    let _ = circuit_without_witnesses;
}

#[test]
fn test_identity_verification_success() {
    let identity_data = b"user123@example.com";
    let nonce = 12345u64;
    let commitment = create_commitment(identity_data, nonce);
    let identity_hash = simple_hash(identity_data).wrapping_add(nonce);

    let circuit = IdentityCircuit::new(Some(identity_hash), commitment);

    // The public input should be 1 (true) since the commitment matches.
    let public_inputs = vec![1u64];

    assert!(circuit.mock_check(&public_inputs));
}

#[test]
fn test_identity_verification_failure() {
    let identity_data = b"user123@example.com";
    let nonce = 12345u64;
    let commitment = create_commitment(identity_data, nonce);
    let wrong_identity_hash = simple_hash(b"wrong_user").wrapping_add(nonce);

    let circuit = IdentityCircuit::new(Some(wrong_identity_hash), commitment);

    // The public input should be 0 (false) since the commitment doesn't match.
    let public_inputs = vec![0u64];

    assert!(circuit.mock_check(&public_inputs));
}

#[test]
fn test_identity_verification_with_field_elements() {
    let identity_hash = WitnessValue::Known(12345u64);
    let commitment = WitnessValue::Known(12345u64);

    let circuit = IdentityCircuit::new_with_fields(identity_hash, commitment);

    let public_inputs = vec![1u64];

    assert!(circuit.mock_check(&public_inputs));
}

#[test]
fn test_identity_verification_different_values() {
    let identity_hash = WitnessValue::Known(12345u64);
    let commitment = WitnessValue::Known(54321u64);

    let circuit = IdentityCircuit::new_with_fields(identity_hash, commitment);

    let public_inputs = vec![0u64];

    assert!(circuit.mock_check(&public_inputs));
}

#[test]
fn identity_test_circuit_without_witnesses() {
    let commitment = 12345u64;

    let circuit = IdentityCircuit::new(None, commitment);
    let circuit_without_witnesses = circuit.without_witnesses();

    let _ = circuit_without_witnesses;
}

#[test]
fn identity_test_utility_functions() {
    let identity_data = b"test@example.com";
    let nonce = 98765u64;

    // The hash is deterministic.
    let hash1 = simple_hash(identity_data);
    let hash2 = simple_hash(identity_data);
    assert_eq!(hash1, hash2);

    let different_data = b"different@example.com";
    let hash3 = simple_hash(different_data);
    assert_ne!(hash1, hash3);

    // Commitments verify against the data and nonce they were built from.
    let commitment = create_commitment(identity_data, nonce);
    assert!(verify_commitment(identity_data, nonce, commitment));
    assert!(!verify_commitment(different_data, nonce, commitment));
    assert!(!verify_commitment(identity_data, nonce + 1, commitment));
}

#[test]
fn test_loan_history_meets_threshold() {
    let num_loans = 10u64;
    let successful_repayments = 9u64; // 90% success rate
    let min_success_rate = (80.0f64 * 100.0) as u64; // 80% minimum, in basis points

    let circuit = LoanHistoryCircuit::new(
        Some(num_loans),
        Some(successful_repayments),
        min_success_rate,
    );

    // The public input should be 1 (true) since 90% >= 80%.
    let public_inputs = vec![1u64];

    assert!(circuit.mock_check(&public_inputs));
}

#[test]
fn test_loan_history_below_threshold() {
    let num_loans = 10u64;
    let successful_repayments = 6u64; // 60% success rate
    let min_success_rate = (80.0f64 * 100.0) as u64;

    let circuit = LoanHistoryCircuit::new(
        Some(num_loans),
        Some(successful_repayments),
        min_success_rate,
    );

    // The public input should be 0 (false) since 60% < 80%.
    let public_inputs = vec![0u64];

    assert!(circuit.mock_check(&public_inputs));
}

#[test]
fn test_no_loan_history() {
    let num_loans = 0u64;
    let successful_repayments = 0u64;
    let min_success_rate = (80.0f64 * 100.0) as u64;

    let circuit = LoanHistoryCircuit::new(
        Some(num_loans),
        Some(successful_repayments),
        min_success_rate,
    );

    // The public input should be 0 (false) since 0% < 80%.
    let public_inputs = vec![0u64];

    assert!(circuit.mock_check(&public_inputs));
}

#[test]
fn test_perfect_loan_history() {
    let num_loans = 5u64;
    let successful_repayments = 5u64; // 100% success rate
    let min_success_rate = (90.0f64 * 100.0) as u64;

    let circuit = LoanHistoryCircuit::new(
        Some(num_loans),
        Some(successful_repayments),
        min_success_rate,
    );

    // The public input should be 1 (true) since 100% >= 90%.
    let public_inputs = vec![1u64];

    assert!(circuit.mock_check(&public_inputs));
}

#[test]
fn loan_history_test_circuit_without_witnesses() {
    let min_success_rate = (80.0f64 * 100.0) as u64;

    let circuit = LoanHistoryCircuit::new(None, None, min_success_rate);
    let circuit_without_witnesses = circuit.without_witnesses();

    let _ = circuit_without_witnesses;
}

#[test]
fn test_edge_cases() {
    // Exactly meeting the threshold: 80% against an 80% minimum.
    let circuit = LoanHistoryCircuit::new(Some(10), Some(8), (80.0f64 * 100.0) as u64);
    let public_inputs = vec![1u64];
    assert!(circuit.mock_check(&public_inputs));

    // A single fully repaid loan against a 50% minimum.
    let circuit2 = LoanHistoryCircuit::new(Some(1), Some(1), (50.0f64 * 100.0) as u64);
    let public_inputs2 = vec![1u64];
    assert!(circuit2.mock_check(&public_inputs2));
}

#[test]
fn test_mobile_trust_score_circuit() {
    let trust_score = 75u32;
    let threshold = 70u32;

    let circuit = MobileTrustScoreCircuit::new(Some(trust_score), threshold);
    let circuit_without_witnesses = circuit.without_witnesses();

    let _ = circuit;
    let _ = circuit_without_witnesses;
}
