//! Identity predicate: proves that a private identity datum matches a public
//! commitment, by direct field equality.
//!
//! On values lifted from `u64` the field equality is exactly `u64` equality,
//! since the lift is injective below the field modulus.

use vstd::prelude::*;
use crate::layout::{
    BooleanGate, CellRef, ConstraintLayout, InstanceBinding, Layouter, Region, WitnessValue,
    spec_binding_satisfied, spec_constraints_satisfied, spec_gate_satisfied, spec_instance_of,
    verify_constraints,
};

verus! {

/// The check the assignment writes into the result cell: exact equality of
/// the identity hash and the commitment.
pub open spec fn spec_commitment_matches(identity_hash: u64, commitment: u64) -> bool {
    identity_hash == commitment
}

/// Decides commitment equality exactly as the circuit assigns it.
pub fn eval_commitment(identity_hash: u64, commitment: u64) -> (r: bool)
    ensures
        r == spec_commitment_matches(identity_hash, commitment),
{
    identity_hash == commitment
}

/// The result cell value: known boolean when both inputs are known, unknown
/// otherwise.
pub open spec fn spec_identity_result(
    identity_hash: WitnessValue,
    commitment: WitnessValue,
) -> WitnessValue {
    if identity_hash is Known && commitment is Known {
        WitnessValue::Known(
            spec_instance_of(spec_commitment_matches(identity_hash->0, commitment->0)),
        )
    } else {
        WitnessValue::Unknown
    }
}

/// Configuration for the identity verification circuit.
#[derive(Clone, Copy, PartialEq, Eq, Structural, Debug)]
pub struct IdentityConfig {
    /// Advice column for the identity hash (private input).
    pub identity_hash: usize,
    /// Advice column for the commitment (public input).
    pub commitment: usize,
    /// Advice column for the verification result.
    pub result: usize,
    /// Instance column for public inputs/outputs.
    pub instance: usize,
    /// Selector for the identity verification gate.
    pub selector: usize,
}

impl IdentityConfig {
    /// The three advice columns are pairwise distinct.
    pub open spec fn distinct(self) -> bool {
        &&& self.identity_hash != self.commitment
        &&& self.identity_hash != self.result
        &&& self.commitment != self.result
    }

    /// All indices fall inside a region of the given arity.
    pub open spec fn in_bounds(self, num_advice: int, num_selectors: int) -> bool {
        &&& self.identity_hash < num_advice
        &&& self.commitment < num_advice
        &&& self.result < num_advice
        &&& self.selector < num_selectors
    }
}

/// Chip for identity verification operations.
pub struct IdentityChip {
    pub config: IdentityConfig,
}

impl IdentityChip {
    pub fn construct(config: IdentityConfig) -> (r: Self)
        ensures
            r.config == config,
    {
        IdentityChip { config }
    }

    /// Declares the layout: equality-copying on every column handed in, and
    /// exactly one gate, guarded by a fresh selector, enforcing boolean-ness
    /// of the result.
    pub fn configure(
        meta: &mut ConstraintLayout,
        identity_hash: usize,
        commitment: usize,
        result: usize,
        instance: usize,
    ) -> (cfg: IdentityConfig)
        requires
            old(meta).wf(),
            identity_hash < old(meta).num_advice,
            commitment < old(meta).num_advice,
            result < old(meta).num_advice,
            instance < old(meta).num_instance,
            old(meta).num_selectors < usize::MAX,
        ensures
            final(meta).wf(),
            cfg == (IdentityConfig {
                identity_hash,
                commitment,
                result,
                instance,
                selector: old(meta).num_selectors,
            }),
            final(meta).num_advice == old(meta).num_advice,
            final(meta).num_instance == old(meta).num_instance,
            final(meta).num_selectors == old(meta).num_selectors + 1,
            final(meta).equality@ == old(meta).equality@.update(identity_hash as int, true).update(
                commitment as int,
                true,
            ).update(result as int, true),
            final(meta).instance_equality@ == old(meta).instance_equality@.update(
                instance as int,
                true,
            ),
            final(meta).gates@ == old(meta).gates@.push(
                BooleanGate { selector: old(meta).num_selectors, result_column: result },
            ),
    {
        let selector = meta.selector();

        meta.enable_equality(identity_hash);
        meta.enable_equality(commitment);
        meta.enable_equality(result);
        meta.enable_instance_equality(instance);

        meta.create_boolean_gate(selector, result);

        IdentityConfig { identity_hash, commitment, result, instance, selector }
    }

    /// Witnesses one verification: enables the selector, writes both inputs,
    /// computes the boolean result out of circuit and writes it, and returns
    /// the result cell.
    pub fn assign_identity_verification(
        &self,
        region: &mut Region,
        identity_hash: WitnessValue,
        commitment: WitnessValue,
    ) -> (cell: CellRef)
        requires
            self.config.distinct(),
            self.config.in_bounds(
                old(region).advice@.len() as int,
                old(region).enabled@.len() as int,
            ),
        ensures
            final(region).enabled@ == old(region).enabled@.update(
                self.config.selector as int,
                true,
            ),
            final(region).advice@ == old(region).advice@.update(
                self.config.identity_hash as int,
                identity_hash,
            ).update(self.config.commitment as int, commitment).update(
                self.config.result as int,
                spec_identity_result(identity_hash, commitment),
            ),
            cell.column == self.config.result,
    {
        region.enable_selector(self.config.selector);

        region.assign_advice(self.config.identity_hash, identity_hash);
        region.assign_advice(self.config.commitment, commitment);

        let result_value = match (identity_hash, commitment) {
            (WitnessValue::Known(hash), WitnessValue::Known(comm)) => {
                let matches = eval_commitment(hash, comm);
                WitnessValue::Known(if matches {
                    1
                } else {
                    0
                })
            },
            _ => WitnessValue::Unknown,
        };

        region.assign_advice(self.config.result, result_value)
    }
}

/// The main identity verification circuit.
#[derive(Clone, Copy, PartialEq, Eq, Structural, Debug)]
pub struct IdentityCircuit {
    /// Private input: the identity hash.
    pub identity_hash: WitnessValue,
    /// Public input: the commitment to verify against.
    pub commitment: WitnessValue,
}

impl IdentityCircuit {
    pub fn new(identity_hash: Option<u64>, commitment: u64) -> (r: Self)
        ensures
            r.identity_hash == match identity_hash {
                Some(hash) => WitnessValue::Known(hash),
                None => WitnessValue::Unknown,
            },
            r.commitment == WitnessValue::Known(commitment),
    {
        IdentityCircuit {
            identity_hash: match identity_hash {
                Some(hash) => WitnessValue::Known(hash),
                None => WitnessValue::Unknown,
            },
            commitment: WitnessValue::Known(commitment),
        }
    }

    /// Creates a circuit from the two cell values directly.
    pub fn new_with_fields(identity_hash: WitnessValue, commitment: WitnessValue) -> (r: Self)
        ensures
            r.identity_hash == identity_hash,
            r.commitment == commitment,
    {
        IdentityCircuit { identity_hash, commitment }
    }

    /// The structural instance used for key generation: the private witness
    /// is dropped, the public parameter is kept.
    pub fn without_witnesses(&self) -> (r: Self)
        ensures
            r.identity_hash == WitnessValue::Unknown,
            r.commitment == self.commitment,
    {
        IdentityCircuit { identity_hash: WitnessValue::Unknown, commitment: self.commitment }
    }

    /// Allocates this circuit's columns in a layout and configures the chip
    /// on them.
    pub fn configure(meta: &mut ConstraintLayout) -> (cfg: IdentityConfig)
        requires
            old(meta).wf(),
            old(meta).num_advice + 3 <= usize::MAX,
            old(meta).num_instance < usize::MAX,
            old(meta).num_selectors < usize::MAX,
        ensures
            final(meta).wf(),
            cfg == (IdentityConfig {
                identity_hash: old(meta).num_advice,
                commitment: (old(meta).num_advice + 1) as usize,
                result: (old(meta).num_advice + 2) as usize,
                instance: old(meta).num_instance,
                selector: old(meta).num_selectors,
            }),
            final(meta).num_advice == old(meta).num_advice + 3,
            final(meta).num_instance == old(meta).num_instance + 1,
            final(meta).num_selectors == old(meta).num_selectors + 1,
            final(meta).gates@ == old(meta).gates@.push(
                BooleanGate {
                    selector: old(meta).num_selectors,
                    result_column: (old(meta).num_advice + 2) as usize,
                },
            ),
    {
        let identity_hash = meta.advice_column();
        let commitment = meta.advice_column();
        let result = meta.advice_column();
        let instance = meta.instance_column();

        IdentityChip::configure(meta, identity_hash, commitment, result, instance)
    }

    /// Synthesizes the circuit: one assigned verification region, with the
    /// result cell bound to row 0 of the instance column.
    pub fn synthesize(&self, config: &IdentityConfig, layouter: &mut Layouter)
        requires
            config.distinct(),
            config.in_bounds(
                old(layouter).region.advice@.len() as int,
                old(layouter).region.enabled@.len() as int,
            ),
        ensures
            final(layouter).region.enabled@ == old(layouter).region.enabled@.update(
                config.selector as int,
                true,
            ),
            final(layouter).region.advice@ == old(layouter).region.advice@.update(
                config.identity_hash as int,
                self.identity_hash,
            ).update(config.commitment as int, self.commitment).update(
                config.result as int,
                spec_identity_result(self.identity_hash, self.commitment),
            ),
            final(layouter).bindings@ == old(layouter).bindings@.push(
                InstanceBinding {
                    column: config.result,
                    instance_column: config.instance,
                    row: 0,
                },
            ),
    {
        let chip = IdentityChip::construct(*config);

        let result_cell = chip.assign_identity_verification(
            &mut layouter.region,
            self.identity_hash,
            self.commitment,
        );

        layouter.constrain_instance(result_cell, config.instance, 0);
    }

    /// Runs the constraint system directly over this circuit's assignment
    /// and the given public instance column, with no proving backend: true
    /// exactly when both cell values are known and the instance publishes
    /// the equality's boolean result.
    pub fn mock_check(&self, instance: &Vec<u64>) -> (r: bool)
        requires
            instance@.len() == 1,
        ensures
            r == {
                &&& self.identity_hash is Known
                &&& self.commitment is Known
                &&& instance@[0] == spec_instance_of(
                    spec_commitment_matches(self.identity_hash->0, self.commitment->0),
                )
            },
    {
        let mut meta = ConstraintLayout::new();
        let config = Self::configure(&mut meta);
        let mut layouter = Layouter::new_for(&meta);
        self.synthesize(&config, &mut layouter);
        let ok = verify_constraints(&meta, &layouter, instance);
        proof {
            let g = BooleanGate { selector: config.selector, result_column: config.result };
            let ib = InstanceBinding {
                column: config.result,
                instance_column: config.instance,
                row: 0,
            };
            let region = layouter.region;
            assert(region.advice@[config.result as int] == spec_identity_result(
                self.identity_hash,
                self.commitment,
            ));
            assert(region.enabled@[config.selector as int]);
            if ok {
                assert(spec_binding_satisfied(layouter.bindings@[0], region, instance@));
            } else if self.identity_hash is Known && self.commitment is Known && instance@[0]
                == spec_instance_of(
                spec_commitment_matches(self.identity_hash->0, self.commitment->0),
            ) {
                assert forall|i: int| 0 <= i < meta.gates@.len() implies spec_gate_satisfied(
                    #[trigger] meta.gates@[i],
                    region,
                ) by {
                    assert(meta.gates@[i] == g);
                }
                assert forall|i: int| 0 <= i < layouter.bindings@.len() implies
                    spec_binding_satisfied(#[trigger] layouter.bindings@[i], region, instance@) by {
                    assert(layouter.bindings@[i] == ib);
                }
                assert(spec_constraints_satisfied(meta, layouter, instance@));
                assert(false);
            }
        }
        ok
    }
}

/// The fold the identity hash is built by: multiply by 31 and add the next
/// byte, both wrapping modulo 2^64.  A demonstration hash, not a
/// cryptographic one.
pub open spec fn spec_simple_hash(data: Seq<u8>) -> u64
    decreases data.len(),
{
    if data.len() == 0 {
        0u64
    } else {
        (((spec_simple_hash(data.drop_last()) * 31) + data.last()) % 0x1_0000_0000_0000_0000) as u64
    }
}

/// A commitment is the identity hash plus the nonce, wrapping modulo 2^64.
pub open spec fn spec_create_commitment(data: Seq<u8>, nonce: u64) -> u64 {
    ((spec_simple_hash(data) + nonce) % 0x1_0000_0000_0000_0000) as u64
}

/// Simple hash function for demonstration (not cryptographically secure).
pub fn simple_hash(data: &[u8]) -> (r: u64)
    ensures
        r == spec_simple_hash(data@),
{
    let mut hash: u64 = 0;
    let n = data.len();
    let mut i: usize = 0;
    while i < n
        invariant
            i <= n,
            n == data@.len(),
            hash == spec_simple_hash(data@.subrange(0, i as int)),
        decreases n - i,
    {
        proof {
            assert(data@.subrange(0, i + 1).drop_last() =~= data@.subrange(0, i as int));
            assert(data@.subrange(0, i + 1).last() == data@[i as int]);
        }
        hash = hash.wrapping_mul(31).wrapping_add(data[i] as u64);
        i = i + 1;
    }
    proof {
        assert(data@.subrange(0, n as int) =~= data@);
    }
    hash
}

/// Creates a commitment to an identity (simplified).
pub fn create_commitment(identity_data: &[u8], nonce: u64) -> (r: u64)
    ensures
        r == spec_create_commitment(identity_data@, nonce),
{
    let identity_hash = simple_hash(identity_data);
    identity_hash.wrapping_add(nonce)
}

/// Verifies an identity commitment: true exactly when the commitment was
/// built from this identity data and nonce.
pub fn verify_commitment(identity_data: &[u8], nonce: u64, commitment: u64) -> (r: bool)
    ensures
        r == (spec_create_commitment(identity_data@, nonce) == commitment),
{
    let expected_commitment = create_commitment(identity_data, nonce);
    expected_commitment == commitment
}

} // verus!
