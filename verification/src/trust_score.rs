//! Trust-score threshold predicate: proves `score >= threshold` without
//! revealing the score.
//!
//! The ordering is decided on the fixed-width byte representations of the
//! two field elements, compared lexicographically from the least significant
//! byte (see `encoding`); on single-byte values this agrees with the integer
//! order.

use vstd::prelude::*;
use crate::encoding::{bytes_ge, field_repr, spec_bytes_ge, spec_field_repr};
use crate::layout::{
    BooleanGate, CellRef, ConstraintLayout, InstanceBinding, Layouter, Region, WitnessValue,
    spec_binding_satisfied, spec_constraints_satisfied, spec_gate_satisfied, spec_instance_of,
    verify_constraints,
};

verus! {

/// The comparison the assignment writes into the result cell: byte-wise
/// lexicographic `>=` of the two representations.
pub open spec fn spec_threshold_met(score: u64, threshold: u64) -> bool {
    spec_bytes_ge(spec_field_repr(score), spec_field_repr(threshold))
}

/// Decides the threshold comparison exactly as the circuit assigns it.
pub fn eval_threshold(score: u64, threshold: u64) -> (r: bool)
    ensures
        r == spec_threshold_met(score, threshold),
{
    let a = field_repr(score);
    let b = field_repr(threshold);
    bytes_ge(&a, &b)
}

/// The result cell value for a pair of cell values: known boolean when both
/// inputs are known, unknown otherwise.
pub open spec fn spec_comparison_result(score: WitnessValue, threshold: WitnessValue) -> WitnessValue {
    if score is Known && threshold is Known {
        WitnessValue::Known(spec_instance_of(spec_threshold_met(score->0, threshold->0)))
    } else {
        WitnessValue::Unknown
    }
}

/// Configuration for the trust score circuit.
#[derive(Clone, Copy, PartialEq, Eq, Structural, Debug)]
pub struct TrustScoreConfig {
    /// Advice column for the trust score (private input).
    pub trust_score: usize,
    /// Advice column for the threshold (public input).
    pub threshold: usize,
    /// Advice column for the comparison result.
    pub result: usize,
    /// Instance column for public inputs/outputs.
    pub instance: usize,
    /// Selector for the comparison gate.
    pub selector: usize,
}

impl TrustScoreConfig {
    /// The three advice columns are distinct, so assigning one never
    /// clobbers another.
    pub open spec fn distinct(self) -> bool {
        &&& self.trust_score != self.threshold
        &&& self.trust_score != self.result
        &&& self.threshold != self.result
    }

    /// All indices fall inside a region of the given arity.
    pub open spec fn in_bounds(self, num_advice: int, num_selectors: int) -> bool {
        &&& self.trust_score < num_advice
        &&& self.threshold < num_advice
        &&& self.result < num_advice
        &&& self.selector < num_selectors
    }
}

/// Chip for trust score comparison operations.
pub struct TrustScoreChip {
    pub config: TrustScoreConfig,
}

impl TrustScoreChip {
    pub fn construct(config: TrustScoreConfig) -> (r: Self)
        ensures
            r.config == config,
    {
        TrustScoreChip { config }
    }

    /// Declares the layout: equality-copying on every column handed in, and
    /// exactly one gate, guarded by a fresh selector, enforcing boolean-ness
    /// of the result.
    pub fn configure(
        meta: &mut ConstraintLayout,
        trust_score: usize,
        threshold: usize,
        result: usize,
        instance: usize,
    ) -> (cfg: TrustScoreConfig)
        requires
            old(meta).wf(),
            trust_score < old(meta).num_advice,
            threshold < old(meta).num_advice,
            result < old(meta).num_advice,
            instance < old(meta).num_instance,
            old(meta).num_selectors < usize::MAX,
        ensures
            final(meta).wf(),
            cfg == (TrustScoreConfig {
                trust_score,
                threshold,
                result,
                instance,
                selector: old(meta).num_selectors,
            }),
            final(meta).num_advice == old(meta).num_advice,
            final(meta).num_instance == old(meta).num_instance,
            final(meta).num_selectors == old(meta).num_selectors + 1,
            final(meta).equality@ == old(meta).equality@.update(trust_score as int, true).update(
                threshold as int,
                true,
            ).update(result as int, true),
            final(meta).instance_equality@ == old(meta).instance_equality@.update(
                instance as int,
                true,
            ),
            final(meta).gates@ == old(meta).gates@.push(
                BooleanGate { selector: old(meta).num_selectors, result_column: result },
            ),
    {
        let selector = meta.selector();

        meta.enable_equality(trust_score);
        meta.enable_equality(threshold);
        meta.enable_equality(result);
        meta.enable_instance_equality(instance);

        meta.create_boolean_gate(selector, result);

        TrustScoreConfig { trust_score, threshold, result, instance, selector }
    }

    /// Witnesses one comparison: enables the selector, writes both inputs,
    /// computes the boolean result out of circuit and writes it, and returns
    /// the result cell so the caller can bind it to the public instance.
    pub fn assign_comparison(
        &self,
        region: &mut Region,
        trust_score: WitnessValue,
        threshold: WitnessValue,
    ) -> (cell: CellRef)
        requires
            self.config.distinct(),
            self.config.in_bounds(
                old(region).advice@.len() as int,
                old(region).enabled@.len() as int,
            ),
        ensures
            final(region).enabled@ == old(region).enabled@.update(
                self.config.selector as int,
                true,
            ),
            final(region).advice@ == old(region).advice@.update(
                self.config.trust_score as int,
                trust_score,
            ).update(self.config.threshold as int, threshold).update(
                self.config.result as int,
                spec_comparison_result(trust_score, threshold),
            ),
            cell.column == self.config.result,
    {
        region.enable_selector(self.config.selector);

        region.assign_advice(self.config.trust_score, trust_score);
        region.assign_advice(self.config.threshold, threshold);

        let result_value = match (trust_score, threshold) {
            (WitnessValue::Known(score), WitnessValue::Known(thresh)) => {
                let met = eval_threshold(score, thresh);
                WitnessValue::Known(if met {
                    1
                } else {
                    0
                })
            },
            _ => WitnessValue::Unknown,
        };

        region.assign_advice(self.config.result, result_value)
    }
}

/// The main trust score circuit.
#[derive(Clone, Copy, PartialEq, Eq, Structural, Debug)]
pub struct TrustScoreCircuit {
    /// Private input: the actual trust score.
    pub trust_score: WitnessValue,
    /// Public input: the threshold to compare against.
    pub threshold: WitnessValue,
}

impl TrustScoreCircuit {
    pub fn new(trust_score: Option<u64>, threshold: u64) -> (r: Self)
        ensures
            r.trust_score == match trust_score {
                Some(score) => WitnessValue::Known(score),
                None => WitnessValue::Unknown,
            },
            r.threshold == WitnessValue::Known(threshold),
    {
        TrustScoreCircuit {
            trust_score: match trust_score {
                Some(score) => WitnessValue::Known(score),
                None => WitnessValue::Unknown,
            },
            threshold: WitnessValue::Known(threshold),
        }
    }

    /// The structural instance used for key generation: the private witness
    /// is dropped, the public parameter is kept.
    pub fn without_witnesses(&self) -> (r: Self)
        ensures
            r.trust_score == WitnessValue::Unknown,
            r.threshold == self.threshold,
    {
        TrustScoreCircuit { trust_score: WitnessValue::Unknown, threshold: self.threshold }
    }

    /// Allocates this circuit's columns in a layout and configures the chip
    /// on them.
    pub fn configure(meta: &mut ConstraintLayout) -> (cfg: TrustScoreConfig)
        requires
            old(meta).wf(),
            old(meta).num_advice + 3 <= usize::MAX,
            old(meta).num_instance < usize::MAX,
            old(meta).num_selectors < usize::MAX,
        ensures
            final(meta).wf(),
            cfg == (TrustScoreConfig {
                trust_score: old(meta).num_advice,
                threshold: (old(meta).num_advice + 1) as usize,
                result: (old(meta).num_advice + 2) as usize,
                instance: old(meta).num_instance,
                selector: old(meta).num_selectors,
            }),
            final(meta).num_advice == old(meta).num_advice + 3,
            final(meta).num_instance == old(meta).num_instance + 1,
            final(meta).num_selectors == old(meta).num_selectors + 1,
            final(meta).gates@ == old(meta).gates@.push(
                BooleanGate {
                    selector: old(meta).num_selectors,
                    result_column: (old(meta).num_advice + 2) as usize,
                },
            ),
    {
        let trust_score = meta.advice_column();
        let threshold = meta.advice_column();
        let result = meta.advice_column();
        let instance = meta.instance_column();

        TrustScoreChip::configure(meta, trust_score, threshold, result, instance)
    }

    /// Synthesizes the circuit: one assigned comparison region, with the
    /// result cell bound to row 0 of the instance column.
    pub fn synthesize(&self, config: &TrustScoreConfig, layouter: &mut Layouter)
        requires
            config.distinct(),
            config.in_bounds(
                old(layouter).region.advice@.len() as int,
                old(layouter).region.enabled@.len() as int,
            ),
        ensures
            final(layouter).region.enabled@ == old(layouter).region.enabled@.update(
                config.selector as int,
                true,
            ),
            final(layouter).region.advice@ == old(layouter).region.advice@.update(
                config.trust_score as int,
                self.trust_score,
            ).update(config.threshold as int, self.threshold).update(
                config.result as int,
                spec_comparison_result(self.trust_score, self.threshold),
            ),
            final(layouter).bindings@ == old(layouter).bindings@.push(
                InstanceBinding {
                    column: config.result,
                    instance_column: config.instance,
                    row: 0,
                },
            ),
    {
        let chip = TrustScoreChip::construct(*config);

        let result_cell = chip.assign_comparison(
            &mut layouter.region,
            self.trust_score,
            self.threshold,
        );

        layouter.constrain_instance(result_cell, config.instance, 0);
    }

    /// Runs the constraint system directly over this circuit's assignment
    /// and the given public instance column, with no proving backend: true
    /// exactly when both cell values are known and the instance publishes
    /// the comparison's boolean result.
    pub fn mock_check(&self, instance: &Vec<u64>) -> (r: bool)
        requires
            instance@.len() == 1,
        ensures
            r == {
                &&& self.trust_score is Known
                &&& self.threshold is Known
                &&& instance@[0] == spec_instance_of(
                    spec_threshold_met(self.trust_score->0, self.threshold->0),
                )
            },
    {
        let mut meta = ConstraintLayout::new();
        let config = Self::configure(&mut meta);
        let mut layouter = Layouter::new_for(&meta);
        self.synthesize(&config, &mut layouter);
        let ok = verify_constraints(&meta, &layouter, instance);
        proof {
            let g = BooleanGate { selector: config.selector, result_column: config.result };
            let ib = InstanceBinding {
                column: config.result,
                instance_column: config.instance,
                row: 0,
            };
            let region = layouter.region;
            assert(region.advice@[config.result as int] == spec_comparison_result(
                self.trust_score,
                self.threshold,
            ));
            assert(region.enabled@[config.selector as int]);
            if ok {
                assert(spec_binding_satisfied(layouter.bindings@[0], region, instance@));
            } else if self.trust_score is Known && self.threshold is Known && instance@[0]
                == spec_instance_of(spec_threshold_met(self.trust_score->0, self.threshold->0)) {
                assert forall|i: int| 0 <= i < meta.gates@.len() implies spec_gate_satisfied(
                    #[trigger] meta.gates@[i],
                    region,
                ) by {
                    assert(meta.gates@[i] == g);
                }
                assert forall|i: int| 0 <= i < layouter.bindings@.len() implies
                    spec_binding_satisfied(#[trigger] layouter.bindings@[i], region, instance@) by {
                    assert(layouter.bindings@[i] == ib);
                }
                assert(spec_constraints_satisfied(meta, layouter, instance@));
                assert(false);
            }
        }
        ok
    }
}

} // verus!
