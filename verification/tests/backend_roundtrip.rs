//! The full proof lifecycle against the real proving backend: setup, key
//! generation, proof creation, and verification through the library's
//! lifecycle state.

use halo2_proofs::circuit::{Layouter, SimpleFloorPlanner, Value};
use halo2_proofs::plonk::{
    create_proof, keygen_pk, keygen_vk, Advice, Circuit, Column, ConstraintSystem, Error,
    Expression, Instance, Selector,
};
use halo2_proofs::poly::Rotation;
use halo2_proofs::transcript::{Blake2bWrite, Challenge255};
use pasta_curves::{EqAffine, Fp};
use rand::rngs::OsRng;
use zk_circuits::lifecycle::{
    generate_params, BackendProvingKey, BackendVerifyingKey, ProofSystemState,
};
use zk_circuits::trust_score::eval_threshold;
use zk_circuits::ZkError;

#[derive(Clone)]
struct HostConfig {
    trust_score: Column<Advice>,
    threshold: Column<Advice>,
    result: Column<Advice>,
    instance: Column<Instance>,
    selector: Selector,
}

/// The host-side trust score circuit handed to the backend: the same
/// layout, gate and assignment the library's circuit abstraction specifies,
/// with the result cell computed by the library's own evaluation function.
#[derive(Clone)]
struct HostTrustScoreCircuit {
    trust_score: Option<u64>,
    threshold: u64,
}

impl HostTrustScoreCircuit {
    fn new(trust_score: Option<u64>, threshold: u64) -> Self {
        Self { trust_score, threshold }
    }
}

impl Circuit<Fp> for HostTrustScoreCircuit {
    type Config = HostConfig;
    type FloorPlanner = SimpleFloorPlanner;

    fn without_witnesses(&self) -> Self {
        Self { trust_score: None, threshold: self.threshold }
    }

    fn configure(meta: &mut ConstraintSystem<Fp>) -> HostConfig {
        let trust_score = meta.advice_column();
        let threshold = meta.advice_column();
        let result = meta.advice_column();
        let instance = meta.instance_column();
        let selector = meta.selector();

        meta.enable_equality(trust_score);
        meta.enable_equality(threshold);
        meta.enable_equality(result);
        meta.enable_equality(instance);

        meta.create_gate("boolean result", |meta| {
            let s = meta.query_selector(selector);
            let result = meta.query_advice(result, Rotation::cur());
            vec![s * (result.clone() * (result - Expression::Constant(Fp::from(1u64))))]
        });

        HostConfig { trust_score, threshold, result, instance, selector }
    }

    fn synthesize(
        &self,
        config: HostConfig,
        mut layouter: impl Layouter<Fp>,
    ) -> Result<(), Error> {
        let score_value = match self.trust_score {
            Some(score) => Value::known(Fp::from(score)),
            None => Value::unknown(),
        };
        let threshold_value = Value::known(Fp::from(self.threshold));
        let result_value = match self.trust_score {
            Some(score) => Value::known(if eval_threshold(score, self.threshold) {
                Fp::from(1u64)
            } else {
                Fp::from(0u64)
            }),
            None => Value::unknown(),
        };
        let result_cell = layouter.assign_region(
            || "trust score comparison",
            |mut region| {
                config.selector.enable(&mut region, 0)?;
                region.assign_advice(|| "trust score", config.trust_score, 0, || score_value)?;
                region.assign_advice(|| "threshold", config.threshold, 0, || threshold_value)?;
                region.assign_advice(|| "result", config.result, 0, || result_value)
            },
        )?;
        layouter.constrain_instance(result_cell.cell(), config.instance, 0)?;
        Ok(())
    }
}

/// Runs setup and key generation at the given row exponent and installs the
/// artifacts into a fresh lifecycle state.
fn initialized_state(k: u32) -> ProofSystemState {
    let mut state = ProofSystemState::new();
    install(&mut state, k);
    state
}

fn install(state: &mut ProofSystemState, k: u32) {
    let params = generate_params(k).expect("row exponent within backend range");
    let circuit = HostTrustScoreCircuit::new(Some(75), 70);
    let vk = keygen_vk(&params.inner, &circuit).expect("verifying key generation");
    let pk = keygen_pk(&params.inner, vk.clone(), &circuit).expect("proving key generation");
    state
        .install_keys(
            params,
            BackendVerifyingKey { inner: vk },
            BackendProvingKey { inner: pk },
            k,
        )
        .expect("artifact installation");
}

/// Creates a proof for the given witness, bound to the public instance
/// recomputed by the same evaluation the assignment uses.
fn prove(state: &ProofSystemState, trust_score: u64, threshold: u64) -> Vec<u8> {
    let circuit = HostTrustScoreCircuit::new(Some(trust_score), threshold);
    let public_input = if eval_threshold(trust_score, threshold) {
        Fp::from(1u64)
    } else {
        Fp::from(0u64)
    };
    let params = state.params_ref().expect("initialized state holds parameters");
    let pk = state.proving_key_ref().expect("initialized state holds the proving key");
    let mut transcript = Blake2bWrite::<Vec<u8>, EqAffine, Challenge255<EqAffine>>::init(vec![]);
    create_proof(
        &params.inner,
        &pk.inner,
        &[circuit],
        &[&[&[public_input]]],
        OsRng,
        &mut transcript,
    )
    .expect("proof creation");
    transcript.finalize()
}

#[test]
fn test_proof_roundtrip_completeness() {
    let state = initialized_state(4);
    let proof = prove(&state, 85, 70);
    assert_eq!(state.verify_proof(&proof, true), Ok(true));
}

#[test]
fn test_proof_roundtrip_false_outcome() {
    let state = initialized_state(4);
    let proof = prove(&state, 65, 70);
    assert_eq!(state.verify_proof(&proof, false), Ok(true));
}

#[test]
fn test_mismatched_claim_rejected() {
    let state = initialized_state(4);
    let proof = prove(&state, 85, 70);
    // The proof was built against the instance for `true`; claiming `false`
    // must come back as a clean negative answer, not an error.
    assert_eq!(state.verify_proof(&proof, false), Ok(false));
}

#[test]
fn test_verification_idempotent() {
    let state = initialized_state(4);
    let proof = prove(&state, 85, 70);
    let first = state.verify_proof(&proof, true);
    let second = state.verify_proof(&proof, true);
    assert_eq!(first, second);
    assert_eq!(first, Ok(true));

    let first_negative = state.verify_proof(&proof, false);
    let second_negative = state.verify_proof(&proof, false);
    assert_eq!(first_negative, second_negative);
    assert_eq!(first_negative, Ok(false));
}

#[test]
fn test_garbage_proof_rejected() {
    let state = initialized_state(4);
    let garbage = vec![7u8; 64];
    assert_eq!(state.verify_proof(&garbage, true), Ok(false));
}

#[test]
fn test_empty_proof_is_malformed() {
    let state = initialized_state(4);
    let empty: Vec<u8> = Vec::new();
    assert_eq!(state.verify_proof(&empty, true), Err(ZkError::MalformedInput));
}

#[test]
fn test_verify_before_initialization() {
    let state = ProofSystemState::new();
    let proof = vec![1u8, 2, 3];
    assert_eq!(state.verify_proof(&proof, true), Err(ZkError::SystemNotInitialized));
}

#[test]
fn test_prepare_proof_instance() {
    let state = initialized_state(4);
    assert_eq!(state.prepare_proof_instance(85, 70), Ok(true));
    assert_eq!(state.prepare_proof_instance(65, 70), Ok(false));
    assert_eq!(state.prepare_proof_instance(70, 70), Ok(true));

    let fresh = ProofSystemState::new();
    assert_eq!(fresh.prepare_proof_instance(85, 70), Err(ZkError::SystemNotInitialized));
}

#[test]
fn test_repeated_initialization_overwrites() {
    let mut state = ProofSystemState::new();
    install(&mut state, 4);
    assert!(state.initialized());
    assert_eq!(state.row_exponent(), 4);

    // The documented re-initialization policy: a second run deterministically
    // overwrites the first, and the state keeps working.
    install(&mut state, 5);
    assert!(state.initialized());
    assert_eq!(state.row_exponent(), 5);

    let proof = prove(&state, 85, 70);
    assert_eq!(state.verify_proof(&proof, true), Ok(true));
}

#[test]
fn test_mismatched_artifacts_refused() {
    // Keys generated at one row exponent cannot be installed under another:
    // the backend would fail an internal size check on such a pair.
    let params4 = generate_params(4).expect("row exponent within backend range");
    let params5 = generate_params(5).expect("row exponent within backend range");
    let circuit = HostTrustScoreCircuit::new(Some(75), 70);
    let vk = keygen_vk(&params5.inner, &circuit).expect("verifying key generation");
    let pk = keygen_pk(&params5.inner, vk.clone(), &circuit).expect("proving key generation");

    let mut state = ProofSystemState::new();
    let installed = state.install_keys(
        params4,
        BackendVerifyingKey { inner: vk },
        BackendProvingKey { inner: pk },
        4,
    );
    assert_eq!(installed, Err(ZkError::KeyGenerationFailure));
    assert!(!state.initialized());
}

#[test]
fn test_generate_params_bounds() {
    assert!(generate_params(4).is_ok());
    match generate_params(32) {
        Err(e) => assert_eq!(e, ZkError::KeyGenerationFailure),
        Ok(_) => panic!("row exponent 32 must be refused"),
    }
}
