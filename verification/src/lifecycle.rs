//! The proof lifecycle: setup parameters, installed keys, and verification
//! against the proving backend.
//!
//! The backend's artifacts — public parameters, proving key, verifying key —
//! are opaque values of the backend's own types.  This module holds them in
//! an explicit context object, `ProofSystemState`, created uninitialized and
//! initialized by installing the artifacts of one setup and key-generation
//! run (a repeated installation deterministically overwrites the previous
//! one).  Key generation itself needs a value implementing the backend's
//! circuit trait, which only the host side can provide; the host generates
//! the keys against the parameters this module creates and hands them back,
//! and the installation checks that the handed-back artifacts belong to the
//! declared row exponent before accepting them.
//!
//! What this module verifies is the lifecycle contract: when each operation
//! is allowed, which error every refusal carries, and that a verification
//! request's outcome is a function of the state, the proof bytes, the
//! claimed result, and nothing else.

use vstd::prelude::*;
use vstd::arithmetic::power2::{
    lemma2_to64, lemma2_to64_rest, lemma_pow2_strictly_increases, pow2,
};
use vstd::bits::lemma_u64_shl_is_mul;
use halo2_proofs::poly::commitment::Params;
use halo2_proofs::plonk::{ProvingKey, VerifyingKey};
use pasta_curves::EqAffine;
use crate::ZkError;
use crate::layout::{instance_of, spec_instance_of};
use crate::trust_score::{eval_threshold, spec_threshold_met};

verus! {

/// The backend's public parameters from one setup run.  The verifier cannot
/// take the backend's generic types in declarations, so the artifact is held
/// whole in an opaque holder; the host side reads and fills `inner` directly.
#[verifier::external_body]
pub struct BackendParams {
    pub inner: Params<EqAffine>,
}

/// The backend's verifying key from one key-generation run, held opaquely.
#[verifier::external_body]
pub struct BackendVerifyingKey {
    pub inner: VerifyingKey<EqAffine>,
}

/// The backend's proving key from one key-generation run, held opaquely.
#[verifier::external_body]
pub struct BackendProvingKey {
    pub inner: ProvingKey<EqAffine>,
}

/// The row-count exponent recorded in the public parameters: every value of
/// the backend's parameter type carries the `k` it was built with, and its
/// row count is 2^k.
pub uninterp spec fn spec_params_k(params: BackendParams) -> u32;

/// The number of rows of the evaluation domain the verifying key was
/// generated over.
pub uninterp spec fn spec_vk_rows(vk: BackendVerifyingKey) -> u64;

/// Whether the backend accepts the proof bytes against these parameters,
/// this verifying key, and the single-cell public instance.  The backend's
/// verification draws no randomness: its answer is a function of these four
/// values alone.
pub uninterp spec fn backend_accepts(
    params: BackendParams,
    vk: BackendVerifyingKey,
    proof: Seq<u8>,
    instance_value: u64,
) -> bool;

/// Relies on `halo2_proofs::poly::commitment::Params::new`, which builds the
/// public parameters for 2^k rows deterministically from `k`, records `k` in
/// them, and asserts `k < 32`.
#[verifier::external_body]
fn backend_setup_params(k: u32) -> (r: BackendParams)
    requires
        k < 32,
    ensures
        spec_params_k(r) == k,
{
    BackendParams { inner: Params::new(k) }
}

/// Relies on `Params::k`: reads back the row-count exponent recorded in the
/// parameters.
#[verifier::external_body]
pub fn params_k(params: &BackendParams) -> (k: u32)
    ensures
        k == spec_params_k(*params),
{
    params.inner.k()
}

/// Relies on `VerifyingKey::get_domain` and
/// `EvaluationDomain::empty_lagrange`: the length of an empty row vector of
/// the key's evaluation domain is exactly the domain's number of rows.
#[verifier::external_body]
pub fn verifying_key_rows(vk: &BackendVerifyingKey) -> (rows: u64)
    ensures
        rows == spec_vk_rows(*vk),
{
    vk.inner.get_domain().empty_lagrange().len() as u64
}

/// Relies on `halo2_proofs::plonk::verify_proof` with a `SingleVerifier`
/// strategy and a Blake2b transcript over the proof bytes: returns whether
/// the proof checks out against the verifying key and the single-cell public
/// instance.  The backend asserts internally that the parameters' row count
/// equals the verifying key's domain size, so the precondition demands
/// exactly that agreement; under it the call is total: every verifying key
/// comes out of the backend's key generation, which refuses domains below
/// its minimum row count, so with the row counts tied together the
/// blinding-factor subtraction on the instance bound cannot underflow
/// either, and a proof that merely fails to verify comes back as `false`
/// (a failed transcript read or an oversized instance is a backend error,
/// also `false`), never a panic.  Verification draws no randomness, so the
/// result is the function of the four arguments that `backend_accepts`
/// names.
#[verifier::external_body]
fn backend_verify(
    params: &BackendParams,
    vk: &BackendVerifyingKey,
    proof_data: &Vec<u8>,
    instance_value: u64,
) -> (r: bool)
    requires
        spec_vk_rows(*vk) == pow2(spec_params_k(*params) as nat),
    ensures
        r == backend_accepts(*params, *vk, proof_data@, instance_value),
{
    let instance = pasta_curves::Fp::from(instance_value);
    let strategy = halo2_proofs::plonk::SingleVerifier::new(&params.inner);
    let mut transcript = halo2_proofs::transcript::Blake2bRead::<
        &[u8],
        EqAffine,
        halo2_proofs::transcript::Challenge255<EqAffine>,
    >::init(&proof_data[..]);
    halo2_proofs::plonk::verify_proof(
        &params.inner,
        &vk.inner,
        strategy,
        &[&[&[instance]]],
        &mut transcript,
    ).is_ok()
}

/// The outcome of a verification request as a function of the lifecycle
/// state, the proof bytes, and the backend's answer: lifecycle and
/// malformed-input failures are errors; everything else passes the backend's
/// answer through as a plain boolean.
pub open spec fn spec_verification_outcome(
    initialized: bool,
    proof_len: int,
    backend_ok: bool,
) -> Result<bool, ZkError> {
    if !initialized {
        Err(ZkError::SystemNotInitialized)
    } else if proof_len == 0 {
        Err(ZkError::MalformedInput)
    } else {
        Ok(backend_ok)
    }
}

/// Decides a verification request from the state of the system, the length
/// of the submitted byte sequence, and the backend's answer.  "The proof
/// did not verify" is the normal result `Ok(false)`, never an error; an
/// error always means verification could not even be attempted.
pub fn decide_verification(initialized: bool, proof_len: usize, backend_ok: bool) -> (r: Result<
    bool,
    ZkError,
>)
    ensures
        r == spec_verification_outcome(initialized, proof_len as int, backend_ok),
{
    if !initialized {
        Err(ZkError::SystemNotInitialized)
    } else if proof_len == 0 {
        Err(ZkError::MalformedInput)
    } else {
        Ok(backend_ok)
    }
}

/// The full verification result as a function of the state and the request:
/// the error discipline of `spec_verification_outcome`, with the backend's
/// answer for the installed artifacts, the submitted bytes, and the
/// instance reconstructed from the claimed result as the published boolean.
pub open spec fn spec_verify_result(
    state: ProofSystemState,
    proof: Seq<u8>,
    claimed_result: bool,
) -> Result<bool, ZkError> {
    spec_verification_outcome(
        state.is_initialized(),
        proof.len() as int,
        backend_accepts(
            state.spec_params()->0,
            state.spec_verifying_key()->0,
            proof,
            spec_instance_of(claimed_result),
        ),
    )
}

/// Idempotence of verification: the outcome is a function of the state, the
/// proof bytes and the claimed result alone, so any two results that meet
/// the verification contract on identical arguments are equal.
pub proof fn lemma_verification_idempotent(
    state: ProofSystemState,
    proof: Seq<u8>,
    claimed_result: bool,
    r1: Result<bool, ZkError>,
    r2: Result<bool, ZkError>,
)
    requires
        r1 == spec_verify_result(state, proof, claimed_result),
        r2 == spec_verify_result(state, proof, claimed_result),
    ensures
        r1 == r2,
{
}

/// An empty byte sequence never reaches the backend: whatever the state and
/// the claim, the outcome on empty input is an error, never a published
/// boolean.
pub proof fn lemma_empty_proof_never_answered(state: ProofSystemState, claimed_result: bool)
    ensures
        spec_verify_result(state, Seq::<u8>::empty(), claimed_result) is Err,
{
}

/// The process-wide proof-system state: public parameters sized by a
/// row-count exponent, one proving key, one verifying key.  Uninitialized at
/// construction; initialized once the artifacts of a setup and
/// key-generation run are installed together; never torn down.  The
/// artifacts are bound to the exact column/gate shape of the circuit they
/// were generated from: proofs made or checked later must share that shape.
pub struct ProofSystemState {
    params: Option<BackendParams>,
    vk: Option<BackendVerifyingKey>,
    pk: Option<BackendProvingKey>,
    row_exponent: u32,
    initialized: bool,
}

impl ProofSystemState {
    /// An initialized state holds all three backend artifacts, and the
    /// parameters and the verifying key agree on the recorded row exponent —
    /// the agreement the backend's verification asserts internally.
    pub closed spec fn wf(&self) -> bool {
        self.initialized ==> {
            &&& self.params is Some
            &&& self.vk is Some
            &&& self.pk is Some
            &&& self.row_exponent < 32
            &&& spec_params_k(self.params->0) == self.row_exponent
            &&& spec_vk_rows(self.vk->0) == pow2(self.row_exponent as nat)
        }
    }

    pub closed spec fn is_initialized(&self) -> bool {
        self.initialized
    }

    pub closed spec fn spec_row_exponent(&self) -> u32 {
        self.row_exponent
    }

    pub closed spec fn spec_params(&self) -> Option<BackendParams> {
        self.params
    }

    pub closed spec fn spec_verifying_key(&self) -> Option<BackendVerifyingKey> {
        self.vk
    }

    pub closed spec fn spec_proving_key(&self) -> Option<BackendProvingKey> {
        self.pk
    }

    /// A fresh, uninitialized state: no operation but installation is
    /// allowed on it.
    pub fn new() -> (r: Self)
        ensures
            r.wf(),
            !r.is_initialized(),
    {
        ProofSystemState { params: None, vk: None, pk: None, row_exponent: 0, initialized: false }
    }

    pub fn initialized(&self) -> (r: bool)
        ensures
            r == self.is_initialized(),
    {
        self.initialized
    }

    pub fn row_exponent(&self) -> (r: u32)
        ensures
            r == self.spec_row_exponent(),
    {
        self.row_exponent
    }

    /// Installs the artifacts of one setup and key-generation run, after
    /// checking that they belong together: the parameters' recorded
    /// exponent and the verifying key's domain size must both match
    /// `row_exponent`, since the backend asserts that agreement during
    /// verification.  On agreement the previous state is deterministically
    /// overwritten — this library's re-initialization policy; on
    /// disagreement the state is left untouched and the installation fails
    /// as key generation does.
    pub fn install_keys(
        &mut self,
        params: BackendParams,
        vk: BackendVerifyingKey,
        pk: BackendProvingKey,
        row_exponent: u32,
    ) -> (r: Result<(), ZkError>)
        ensures
            r is Ok <==> {
                &&& row_exponent < 32
                &&& spec_params_k(params) == row_exponent
                &&& spec_vk_rows(vk) == pow2(row_exponent as nat)
            },
            r is Ok ==> {
                &&& final(self).wf()
                &&& final(self).is_initialized()
                &&& final(self).spec_row_exponent() == row_exponent
                &&& final(self).spec_params() == Some(params)
                &&& final(self).spec_verifying_key() == Some(vk)
                &&& final(self).spec_proving_key() == Some(pk)
            },
            r is Err ==> *final(self) == *old(self) && r == Err::<(), ZkError>(
                ZkError::KeyGenerationFailure,
            ),
    {
        if row_exponent < 32 && params_k(&params) == row_exponent {
            proof {
                lemma_pow2_strictly_increases(row_exponent as nat, 64);
                lemma2_to64();
                lemma2_to64_rest();
                lemma_u64_shl_is_mul(1u64, row_exponent as u64);
            }
            let rows = verifying_key_rows(&vk);
            if rows == 1u64 << (row_exponent as u64) {
                self.params = Some(params);
                self.vk = Some(vk);
                self.pk = Some(pk);
                self.row_exponent = row_exponent;
                self.initialized = true;
                Ok(())
            } else {
                Err(ZkError::KeyGenerationFailure)
            }
        } else {
            Err(ZkError::KeyGenerationFailure)
        }
    }

    /// The public parameters, for the host's proof generation; present
    /// exactly when parameters were installed.
    pub fn params_ref(&self) -> (r: Option<&BackendParams>)
        ensures
            r is Some <==> self.spec_params() is Some,
            r matches Some(p) ==> self.spec_params() == Some(*p),
    {
        self.params.as_ref()
    }

    /// The proving key, for the host's proof generation; present exactly
    /// when one was installed.
    pub fn proving_key_ref(&self) -> (r: Option<&BackendProvingKey>)
        ensures
            r is Some <==> self.spec_proving_key() is Some,
            r matches Some(pk) ==> self.spec_proving_key() == Some(*pk),
    {
        self.pk.as_ref()
    }

    /// Validates a proof request and recomputes the public boolean the
    /// proof must be built against, with the same evaluation the circuit's
    /// assignment uses — the two agree bit for bit by construction, as a
    /// proof built against a diverging instance would fail verification.
    pub fn prepare_proof_instance(&self, trust_score: u32, threshold: u32) -> (r: Result<
        bool,
        ZkError,
    >)
        ensures
            r is Ok <==> self.is_initialized(),
            r matches Ok(b) ==> b == spec_threshold_met(trust_score as u64, threshold as u64),
            !self.is_initialized() ==> r == Err::<bool, ZkError>(ZkError::SystemNotInitialized),
    {
        if !self.initialized {
            Err(ZkError::SystemNotInitialized)
        } else {
            Ok(eval_threshold(trust_score as u64, threshold as u64))
        }
    }

    /// Checks a proof against the installed artifacts and the public
    /// instance reconstructed from the claimed boolean result.  The result
    /// is exactly `spec_verify_result`: never an error for "the proof does
    /// not verify" — that is `Ok(false)` — while errors are reserved for
    /// requests that cannot even be attempted: a state that was never
    /// initialized, or an empty byte sequence.
    pub fn verify_proof(&self, proof_data: &Vec<u8>, expected_result: bool) -> (r: Result<
        bool,
        ZkError,
    >)
        requires
            self.wf(),
        ensures
            r == spec_verify_result(*self, proof_data@, expected_result),
            !self.is_initialized() ==> r == Err::<bool, ZkError>(ZkError::SystemNotInitialized),
            self.is_initialized() && proof_data@.len() == 0 ==> r == Err::<bool, ZkError>(
                ZkError::MalformedInput,
            ),
            r is Ok <==> (self.is_initialized() && proof_data@.len() > 0),
    {
        if self.initialized && proof_data.len() > 0 {
            let instance_value = instance_of(expected_result);
            let backend_ok = match (&self.params, &self.vk) {
                (Some(params), Some(vk)) => backend_verify(params, vk, proof_data, instance_value),
                _ => false,
            };
            decide_verification(true, proof_data.len(), backend_ok)
        } else {
            decide_verification(self.initialized, proof_data.len(), false)
        }
    }
}

/// Creates the public parameters for a circuit of 2^row_exponent rows.
/// Fails, with the error initialization reports, exactly when the exponent
/// exceeds what the backend accepts.
pub fn generate_params(row_exponent: u32) -> (r: Result<BackendParams, ZkError>)
    ensures
        r matches Ok(params) ==> spec_params_k(params) == row_exponent,
        r is Ok <==> row_exponent < 32,
        r is Err ==> r == Err::<BackendParams, ZkError>(ZkError::KeyGenerationFailure),
{
    if row_exponent < 32 {
        Ok(backend_setup_params(row_exponent))
    } else {
        Err(ZkError::KeyGenerationFailure)
    }
}

} // verus!
