//! Loan-history predicate: proves that the repayment success rate meets a
//! public threshold without revealing the loan counts.
//!
//! The rate is computed in the integer domain as
//! `successful_repayments * 10000 / num_loans` (basis points), with zero
//! loans giving rate 0; the comparison against the threshold is plain
//! integer `>=` on the decoded values.

use vstd::prelude::*;
use crate::layout::{
    BooleanGate, CellRef, ConstraintLayout, InstanceBinding, Layouter, Region, WitnessValue,
    spec_binding_satisfied, spec_constraints_satisfied, spec_gate_satisfied, spec_instance_of,
    verify_constraints,
};

verus! {

/// Success rate in basis points: `repayments * 10000 / loans`, with zero
/// loans meaning a rate of 0.
pub open spec fn spec_success_rate(num_loans: u64, successful_repayments: u64) -> int {
    if num_loans == 0 {
        0
    } else {
        (successful_repayments * 10000) / (num_loans as int)
    }
}

/// The comparison the assignment writes into the result cell: the success
/// rate, in basis points, is at least the public threshold.
pub open spec fn spec_meets_threshold(
    num_loans: u64,
    successful_repayments: u64,
    min_success_rate: u64,
) -> bool {
    spec_success_rate(num_loans, successful_repayments) >= min_success_rate
}

/// Calculates the success rate as basis points (percentage times 100, to
/// avoid decimals).
pub fn calculate_success_rate(num_loans: u64, successful_repayments: u64) -> (r: u64)
    requires
        successful_repayments * 10000 <= u64::MAX,
    ensures
        r == spec_success_rate(num_loans, successful_repayments),
{
    if num_loans == 0 {
        0
    } else {
        (successful_repayments * 10000) / num_loans
    }
}

/// Checks whether a loan history meets the minimum success rate.
pub fn meets_success_rate_threshold(
    num_loans: u64,
    successful_repayments: u64,
    min_success_rate: u64,
) -> (r: bool)
    requires
        successful_repayments * 10000 <= u64::MAX,
    ensures
        r == spec_meets_threshold(num_loans, successful_repayments, min_success_rate),
{
    let success_rate = calculate_success_rate(num_loans, successful_repayments);
    success_rate >= min_success_rate
}

/// The success-rate cell value: known when both counts are known, unknown
/// otherwise.
pub open spec fn spec_rate_result(
    num_loans: WitnessValue,
    successful_repayments: WitnessValue,
) -> WitnessValue {
    if num_loans is Known && successful_repayments is Known {
        WitnessValue::Known(spec_success_rate(num_loans->0, successful_repayments->0) as u64)
    } else {
        WitnessValue::Unknown
    }
}

/// The result cell value: known boolean when all three inputs are known,
/// unknown otherwise.
pub open spec fn spec_loan_result(
    num_loans: WitnessValue,
    successful_repayments: WitnessValue,
    min_success_rate: WitnessValue,
) -> WitnessValue {
    if num_loans is Known && successful_repayments is Known && min_success_rate is Known {
        WitnessValue::Known(
            spec_instance_of(
                spec_meets_threshold(num_loans->0, successful_repayments->0, min_success_rate->0),
            ),
        )
    } else {
        WitnessValue::Unknown
    }
}

/// Configuration for the loan history verification circuit.
#[derive(Clone, Copy, PartialEq, Eq, Structural, Debug)]
pub struct LoanHistoryConfig {
    /// Advice column for the number of loans (private input).
    pub num_loans: usize,
    /// Advice column for the number of successful repayments (private input).
    pub successful_repayments: usize,
    /// Advice column for the minimum success rate threshold (public input).
    pub min_success_rate: usize,
    /// Advice column for the calculated success rate.
    pub success_rate: usize,
    /// Advice column for the result (1 if meets threshold, 0 if not).
    pub result: usize,
    /// Instance column for public inputs/outputs.
    pub instance: usize,
    /// Selector for the loan history verification gate.
    pub selector: usize,
}

impl LoanHistoryConfig {
    /// The five advice columns are pairwise distinct.
    pub open spec fn distinct(self) -> bool {
        &&& self.num_loans != self.successful_repayments
        &&& self.num_loans != self.min_success_rate
        &&& self.num_loans != self.success_rate
        &&& self.num_loans != self.result
        &&& self.successful_repayments != self.min_success_rate
        &&& self.successful_repayments != self.success_rate
        &&& self.successful_repayments != self.result
        &&& self.min_success_rate != self.success_rate
        &&& self.min_success_rate != self.result
        &&& self.success_rate != self.result
    }

    /// All indices fall inside a region of the given arity.
    pub open spec fn in_bounds(self, num_advice: int, num_selectors: int) -> bool {
        &&& self.num_loans < num_advice
        &&& self.successful_repayments < num_advice
        &&& self.min_success_rate < num_advice
        &&& self.success_rate < num_advice
        &&& self.result < num_advice
        &&& self.selector < num_selectors
    }
}

/// Chip for loan history verification operations.
pub struct LoanHistoryChip {
    pub config: LoanHistoryConfig,
}

impl LoanHistoryChip {
    pub fn construct(config: LoanHistoryConfig) -> (r: Self)
        ensures
            r.config == config,
    {
        LoanHistoryChip { config }
    }

    /// Declares the layout: equality-copying on every column handed in, and
    /// exactly one gate, guarded by a fresh selector, enforcing boolean-ness
    /// of the result.
    pub fn configure(
        meta: &mut ConstraintLayout,
        num_loans: usize,
        successful_repayments: usize,
        min_success_rate: usize,
        success_rate: usize,
        result: usize,
        instance: usize,
    ) -> (cfg: LoanHistoryConfig)
        requires
            old(meta).wf(),
            num_loans < old(meta).num_advice,
            successful_repayments < old(meta).num_advice,
            min_success_rate < old(meta).num_advice,
            success_rate < old(meta).num_advice,
            result < old(meta).num_advice,
            instance < old(meta).num_instance,
            old(meta).num_selectors < usize::MAX,
        ensures
            final(meta).wf(),
            cfg == (LoanHistoryConfig {
                num_loans,
                successful_repayments,
                min_success_rate,
                success_rate,
                result,
                instance,
                selector: old(meta).num_selectors,
            }),
            final(meta).num_advice == old(meta).num_advice,
            final(meta).num_instance == old(meta).num_instance,
            final(meta).num_selectors == old(meta).num_selectors + 1,
            final(meta).equality@ == old(meta).equality@.update(num_loans as int, true).update(
                successful_repayments as int,
                true,
            ).update(min_success_rate as int, true).update(success_rate as int, true).update(
                result as int,
                true,
            ),
            final(meta).instance_equality@ == old(meta).instance_equality@.update(
                instance as int,
                true,
            ),
            final(meta).gates@ == old(meta).gates@.push(
                BooleanGate { selector: old(meta).num_selectors, result_column: result },
            ),
    {
        let selector = meta.selector();

        meta.enable_equality(num_loans);
        meta.enable_equality(successful_repayments);
        meta.enable_equality(min_success_rate);
        meta.enable_equality(success_rate);
        meta.enable_equality(result);
        meta.enable_instance_equality(instance);

        meta.create_boolean_gate(selector, result);

        LoanHistoryConfig {
            num_loans,
            successful_repayments,
            min_success_rate,
            success_rate,
            result,
            instance,
            selector,
        }
    }

    /// Witnesses one verification: enables the selector, writes the three
    /// inputs, computes the success rate and the boolean result out of
    /// circuit and writes both, and returns the result cell.
    pub fn assign_loan_history_verification(
        &self,
        region: &mut Region,
        num_loans: WitnessValue,
        successful_repayments: WitnessValue,
        min_success_rate: WitnessValue,
    ) -> (cell: CellRef)
        requires
            self.config.distinct(),
            self.config.in_bounds(
                old(region).advice@.len() as int,
                old(region).enabled@.len() as int,
            ),
            successful_repayments matches WitnessValue::Known(reps) ==> reps * 10000 <= u64::MAX,
        ensures
            final(region).enabled@ == old(region).enabled@.update(
                self.config.selector as int,
                true,
            ),
            final(region).advice@ == old(region).advice@.update(
                self.config.num_loans as int,
                num_loans,
            ).update(self.config.successful_repayments as int, successful_repayments).update(
                self.config.min_success_rate as int,
                min_success_rate,
            ).update(
                self.config.success_rate as int,
                spec_rate_result(num_loans, successful_repayments),
            ).update(
                self.config.result as int,
                spec_loan_result(num_loans, successful_repayments, min_success_rate),
            ),
            cell.column == self.config.result,
    {
        region.enable_selector(self.config.selector);

        region.assign_advice(self.config.num_loans, num_loans);
        region.assign_advice(self.config.successful_repayments, successful_repayments);
        region.assign_advice(self.config.min_success_rate, min_success_rate);

        let success_rate_value = match (num_loans, successful_repayments) {
            (WitnessValue::Known(loans), WitnessValue::Known(repayments)) => WitnessValue::Known(
                calculate_success_rate(loans, repayments),
            ),
            _ => WitnessValue::Unknown,
        };
        region.assign_advice(self.config.success_rate, success_rate_value);

        let result_value = match (success_rate_value, min_success_rate) {
            (WitnessValue::Known(rate), WitnessValue::Known(min_rate)) => WitnessValue::Known(
                if rate >= min_rate {
                    1
                } else {
                    0
                },
            ),
            _ => WitnessValue::Unknown,
        };

        region.assign_advice(self.config.result, result_value)
    }
}

/// The main loan history verification circuit.
#[derive(Clone, Copy, PartialEq, Eq, Structural, Debug)]
pub struct LoanHistoryCircuit {
    /// Private input: the number of loans taken.
    pub num_loans: WitnessValue,
    /// Private input: the number of successful repayments.
    pub successful_repayments: WitnessValue,
    /// Public input: the minimum success rate threshold (basis points).
    pub min_success_rate: WitnessValue,
}

impl LoanHistoryCircuit {
    pub fn new(
        num_loans: Option<u64>,
        successful_repayments: Option<u64>,
        min_success_rate: u64,
    ) -> (r: Self)
        ensures
            r.num_loans == match num_loans {
                Some(loans) => WitnessValue::Known(loans),
                None => WitnessValue::Unknown,
            },
            r.successful_repayments == match successful_repayments {
                Some(repayments) => WitnessValue::Known(repayments),
                None => WitnessValue::Unknown,
            },
            r.min_success_rate == WitnessValue::Known(min_success_rate),
    {
        LoanHistoryCircuit {
            num_loans: match num_loans {
                Some(loans) => WitnessValue::Known(loans),
                None => WitnessValue::Unknown,
            },
            successful_repayments: match successful_repayments {
                Some(repayments) => WitnessValue::Known(repayments),
                None => WitnessValue::Unknown,
            },
            min_success_rate: WitnessValue::Known(min_success_rate),
        }
    }

    /// The structural instance used for key generation: the private
    /// witnesses are dropped, the public parameter is kept.
    pub fn without_witnesses(&self) -> (r: Self)
        ensures
            r.num_loans == WitnessValue::Unknown,
            r.successful_repayments == WitnessValue::Unknown,
            r.min_success_rate == self.min_success_rate,
    {
        LoanHistoryCircuit {
            num_loans: WitnessValue::Unknown,
            successful_repayments: WitnessValue::Unknown,
            min_success_rate: self.min_success_rate,
        }
    }

    /// Allocates this circuit's columns in a layout and configures the chip
    /// on them.
    pub fn configure(meta: &mut ConstraintLayout) -> (cfg: LoanHistoryConfig)
        requires
            old(meta).wf(),
            old(meta).num_advice + 5 <= usize::MAX,
            old(meta).num_instance < usize::MAX,
            old(meta).num_selectors < usize::MAX,
        ensures
            final(meta).wf(),
            cfg == (LoanHistoryConfig {
                num_loans: old(meta).num_advice,
                successful_repayments: (old(meta).num_advice + 1) as usize,
                min_success_rate: (old(meta).num_advice + 2) as usize,
                success_rate: (old(meta).num_advice + 3) as usize,
                result: (old(meta).num_advice + 4) as usize,
                instance: old(meta).num_instance,
                selector: old(meta).num_selectors,
            }),
            final(meta).num_advice == old(meta).num_advice + 5,
            final(meta).num_instance == old(meta).num_instance + 1,
            final(meta).num_selectors == old(meta).num_selectors + 1,
            final(meta).gates@ == old(meta).gates@.push(
                BooleanGate {
                    selector: old(meta).num_selectors,
                    result_column: (old(meta).num_advice + 4) as usize,
                },
            ),
    {
        let num_loans = meta.advice_column();
        let successful_repayments = meta.advice_column();
        let min_success_rate = meta.advice_column();
        let success_rate = meta.advice_column();
        let result = meta.advice_column();
        let instance = meta.instance_column();

        LoanHistoryChip::configure(
            meta,
            num_loans,
            successful_repayments,
            min_success_rate,
            success_rate,
            result,
            instance,
        )
    }

    /// Synthesizes the circuit: one assigned verification region, with the
    /// result cell bound to row 0 of the instance column.
    pub fn synthesize(&self, config: &LoanHistoryConfig, layouter: &mut Layouter)
        requires
            config.distinct(),
            config.in_bounds(
                old(layouter).region.advice@.len() as int,
                old(layouter).region.enabled@.len() as int,
            ),
            self.successful_repayments matches WitnessValue::Known(reps) ==> reps * 10000
                <= u64::MAX,
        ensures
            final(layouter).region.enabled@ == old(layouter).region.enabled@.update(
                config.selector as int,
                true,
            ),
            final(layouter).region.advice@ == old(layouter).region.advice@.update(
                config.num_loans as int,
                self.num_loans,
            ).update(config.successful_repayments as int, self.successful_repayments).update(
                config.min_success_rate as int,
                self.min_success_rate,
            ).update(
                config.success_rate as int,
                spec_rate_result(self.num_loans, self.successful_repayments),
            ).update(
                config.result as int,
                spec_loan_result(
                    self.num_loans,
                    self.successful_repayments,
                    self.min_success_rate,
                ),
            ),
            final(layouter).bindings@ == old(layouter).bindings@.push(
                InstanceBinding {
                    column: config.result,
                    instance_column: config.instance,
                    row: 0,
                },
            ),
    {
        let chip = LoanHistoryChip::construct(*config);

        let result_cell = chip.assign_loan_history_verification(
            &mut layouter.region,
            self.num_loans,
            self.successful_repayments,
            self.min_success_rate,
        );

        layouter.constrain_instance(result_cell, config.instance, 0);
    }

    /// Runs the constraint system directly over this circuit's assignment
    /// and the given public instance column, with no proving backend: true
    /// exactly when all cell values are known and the instance publishes the
    /// threshold comparison's boolean result.
    pub fn mock_check(&self, instance: &Vec<u64>) -> (r: bool)
        requires
            instance@.len() == 1,
            self.successful_repayments matches WitnessValue::Known(reps) ==> reps * 10000
                <= u64::MAX,
        ensures
            r == {
                &&& self.num_loans is Known
                &&& self.successful_repayments is Known
                &&& self.min_success_rate is Known
                &&& instance@[0] == spec_instance_of(
                    spec_meets_threshold(
                        self.num_loans->0,
                        self.successful_repayments->0,
                        self.min_success_rate->0,
                    ),
                )
            },
    {
        let mut meta = ConstraintLayout::new();
        let config = Self::configure(&mut meta);
        let mut layouter = Layouter::new_for(&meta);
        self.synthesize(&config, &mut layouter);
        let ok = verify_constraints(&meta, &layouter, instance);
        proof {
            let g = BooleanGate { selector: config.selector, result_column: config.result };
            let ib = InstanceBinding {
                column: config.result,
                instance_column: config.instance,
                row: 0,
            };
            let region = layouter.region;
            assert(region.advice@[config.result as int] == spec_loan_result(
                self.num_loans,
                self.successful_repayments,
                self.min_success_rate,
            ));
            assert(region.enabled@[config.selector as int]);
            if ok {
                assert(spec_binding_satisfied(layouter.bindings@[0], region, instance@));
            } else if self.num_loans is Known && self.successful_repayments is Known
                && self.min_success_rate is Known && instance@[0] == spec_instance_of(
                spec_meets_threshold(
                    self.num_loans->0,
                    self.successful_repayments->0,
                    self.min_success_rate->0,
                ),
            ) {
                assert forall|i: int| 0 <= i < meta.gates@.len() implies spec_gate_satisfied(
                    #[trigger] meta.gates@[i],
                    region,
                ) by {
                    assert(meta.gates@[i] == g);
                }
                assert forall|i: int| 0 <= i < layouter.bindings@.len() implies
                    spec_binding_satisfied(#[trigger] layouter.bindings@[i], region, instance@) by {
                    assert(layouter.bindings@[i] == ib);
                }
                assert(spec_constraints_satisfied(meta, layouter, instance@));
                assert(false);
            }
        }
        ok
    }
}

} // verus!
