//! Income-range predicate: proves `min <= income <= max` without revealing
//! the income.
//!
//! Both bounds are checked on the fixed-width byte representations of the
//! field elements, compared lexicographically from the least significant
//! byte (see `encoding`).

use vstd::prelude::*;
use crate::encoding::{
    bytes_ge, bytes_le, field_repr, spec_bytes_ge, spec_bytes_le, spec_field_repr,
};
use crate::layout::{
    BooleanGate, CellRef, ConstraintLayout, InstanceBinding, Layouter, Region, WitnessValue,
    spec_binding_satisfied, spec_constraints_satisfied, spec_gate_satisfied, spec_instance_of,
    verify_constraints,
};

verus! {

/// The containment the assignment writes into the result cell: byte-wise
/// lexicographic comparison of the representation against both bounds.
pub open spec fn spec_in_range(income: u64, min_range: u64, max_range: u64) -> bool {
    &&& spec_bytes_ge(spec_field_repr(income), spec_field_repr(min_range))
    &&& spec_bytes_le(spec_field_repr(income), spec_field_repr(max_range))
}

/// Decides range containment exactly as the circuit assigns it.
pub fn eval_range(income: u64, min_range: u64, max_range: u64) -> (r: bool)
    ensures
        r == spec_in_range(income, min_range, max_range),
{
    let inc = field_repr(income);
    let lo = field_repr(min_range);
    let hi = field_repr(max_range);
    bytes_ge(&inc, &lo) && bytes_le(&inc, &hi)
}

/// The result cell value: known boolean when all three inputs are known,
/// unknown otherwise.
pub open spec fn spec_range_result(
    income: WitnessValue,
    min_range: WitnessValue,
    max_range: WitnessValue,
) -> WitnessValue {
    if income is Known && min_range is Known && max_range is Known {
        WitnessValue::Known(spec_instance_of(spec_in_range(income->0, min_range->0, max_range->0)))
    } else {
        WitnessValue::Unknown
    }
}

/// Configuration for the income range circuit.
#[derive(Clone, Copy, PartialEq, Eq, Structural, Debug)]
pub struct IncomeRangeConfig {
    /// Advice column for the actual income (private input).
    pub income: usize,
    /// Advice column for the minimum range value (public input).
    pub min_range: usize,
    /// Advice column for the maximum range value (public input).
    pub max_range: usize,
    /// Advice column for the result (1 if in range, 0 if not).
    pub result: usize,
    /// Instance column for public inputs/outputs.
    pub instance: usize,
    /// Selector for the range check gate.
    pub selector: usize,
}

impl IncomeRangeConfig {
    /// The four advice columns are pairwise distinct.
    pub open spec fn distinct(self) -> bool {
        &&& self.income != self.min_range
        &&& self.income != self.max_range
        &&& self.income != self.result
        &&& self.min_range != self.max_range
        &&& self.min_range != self.result
        &&& self.max_range != self.result
    }

    /// All indices fall inside a region of the given arity.
    pub open spec fn in_bounds(self, num_advice: int, num_selectors: int) -> bool {
        &&& self.income < num_advice
        &&& self.min_range < num_advice
        &&& self.max_range < num_advice
        &&& self.result < num_advice
        &&& self.selector < num_selectors
    }
}

/// Chip for income range verification operations.
pub struct IncomeRangeChip {
    pub config: IncomeRangeConfig,
}

impl IncomeRangeChip {
    pub fn construct(config: IncomeRangeConfig) -> (r: Self)
        ensures
            r.config == config,
    {
        IncomeRangeChip { config }
    }

    /// Declares the layout: equality-copying on every column handed in, and
    /// exactly one gate, guarded by a fresh selector, enforcing boolean-ness
    /// of the result.
    pub fn configure(
        meta: &mut ConstraintLayout,
        income: usize,
        min_range: usize,
        max_range: usize,
        result: usize,
        instance: usize,
    ) -> (cfg: IncomeRangeConfig)
        requires
            old(meta).wf(),
            income < old(meta).num_advice,
            min_range < old(meta).num_advice,
            max_range < old(meta).num_advice,
            result < old(meta).num_advice,
            instance < old(meta).num_instance,
            old(meta).num_selectors < usize::MAX,
        ensures
            final(meta).wf(),
            cfg == (IncomeRangeConfig {
                income,
                min_range,
                max_range,
                result,
                instance,
                selector: old(meta).num_selectors,
            }),
            final(meta).num_advice == old(meta).num_advice,
            final(meta).num_instance == old(meta).num_instance,
            final(meta).num_selectors == old(meta).num_selectors + 1,
            final(meta).equality@ == old(meta).equality@.update(income as int, true).update(
                min_range as int,
                true,
            ).update(max_range as int, true).update(result as int, true),
            final(meta).instance_equality@ == old(meta).instance_equality@.update(
                instance as int,
                true,
            ),
            final(meta).gates@ == old(meta).gates@.push(
                BooleanGate { selector: old(meta).num_selectors, result_column: result },
            ),
    {
        let selector = meta.selector();

        meta.enable_equality(income);
        meta.enable_equality(min_range);
        meta.enable_equality(max_range);
        meta.enable_equality(result);
        meta.enable_instance_equality(instance);

        meta.create_boolean_gate(selector, result);

        IncomeRangeConfig { income, min_range, max_range, result, instance, selector }
    }

    /// Witnesses one range check: enables the selector, writes the three
    /// inputs, computes the boolean result out of circuit and writes it, and
    /// returns the result cell.
    pub fn assign_range_check(
        &self,
        region: &mut Region,
        income: WitnessValue,
        min_range: WitnessValue,
        max_range: WitnessValue,
    ) -> (cell: CellRef)
        requires
            self.config.distinct(),
            self.config.in_bounds(
                old(region).advice@.len() as int,
                old(region).enabled@.len() as int,
            ),
        ensures
            final(region).enabled@ == old(region).enabled@.update(
                self.config.selector as int,
                true,
            ),
            final(region).advice@ == old(region).advice@.update(
                self.config.income as int,
                income,
            ).update(self.config.min_range as int, min_range).update(
                self.config.max_range as int,
                max_range,
            ).update(self.config.result as int, spec_range_result(income, min_range, max_range)),
            cell.column == self.config.result,
    {
        region.enable_selector(self.config.selector);

        region.assign_advice(self.config.income, income);
        region.assign_advice(self.config.min_range, min_range);
        region.assign_advice(self.config.max_range, max_range);

        let result_value = match (income, min_range, max_range) {
            (WitnessValue::Known(inc), WitnessValue::Known(lo), WitnessValue::Known(hi)) => {
                let contained = eval_range(inc, lo, hi);
                WitnessValue::Known(if contained {
                    1
                } else {
                    0
                })
            },
            _ => WitnessValue::Unknown,
        };

        region.assign_advice(self.config.result, result_value)
    }
}

/// The main income range circuit.
#[derive(Clone, Copy, PartialEq, Eq, Structural, Debug)]
pub struct IncomeRangeCircuit {
    /// Private input: the actual income.
    pub income: WitnessValue,
    /// Public input: the minimum range value.
    pub min_range: WitnessValue,
    /// Public input: the maximum range value.
    pub max_range: WitnessValue,
}

impl IncomeRangeCircuit {
    pub fn new(income: Option<u64>, min_range: u64, max_range: u64) -> (r: Self)
        ensures
            r.income == match income {
                Some(inc) => WitnessValue::Known(inc),
                None => WitnessValue::Unknown,
            },
            r.min_range == WitnessValue::Known(min_range),
            r.max_range == WitnessValue::Known(max_range),
    {
        IncomeRangeCircuit {
            income: match income {
                Some(inc) => WitnessValue::Known(inc),
                None => WitnessValue::Unknown,
            },
            min_range: WitnessValue::Known(min_range),
            max_range: WitnessValue::Known(max_range),
        }
    }

    /// The structural instance used for key generation: the private witness
    /// is dropped, the public parameters are kept.
    pub fn without_witnesses(&self) -> (r: Self)
        ensures
            r.income == WitnessValue::Unknown,
            r.min_range == self.min_range,
            r.max_range == self.max_range,
    {
        IncomeRangeCircuit {
            income: WitnessValue::Unknown,
            min_range: self.min_range,
            max_range: self.max_range,
        }
    }

    /// Allocates this circuit's columns in a layout and configures the chip
    /// on them.
    pub fn configure(meta: &mut ConstraintLayout) -> (cfg: IncomeRangeConfig)
        requires
            old(meta).wf(),
            old(meta).num_advice + 4 <= usize::MAX,
            old(meta).num_instance < usize::MAX,
            old(meta).num_selectors < usize::MAX,
        ensures
            final(meta).wf(),
            cfg == (IncomeRangeConfig {
                income: old(meta).num_advice,
                min_range: (old(meta).num_advice + 1) as usize,
                max_range: (old(meta).num_advice + 2) as usize,
                result: (old(meta).num_advice + 3) as usize,
                instance: old(meta).num_instance,
                selector: old(meta).num_selectors,
            }),
            final(meta).num_advice == old(meta).num_advice + 4,
            final(meta).num_instance == old(meta).num_instance + 1,
            final(meta).num_selectors == old(meta).num_selectors + 1,
            final(meta).gates@ == old(meta).gates@.push(
                BooleanGate {
                    selector: old(meta).num_selectors,
                    result_column: (old(meta).num_advice + 3) as usize,
                },
            ),
    {
        let income = meta.advice_column();
        let min_range = meta.advice_column();
        let max_range = meta.advice_column();
        let result = meta.advice_column();
        let instance = meta.instance_column();

        IncomeRangeChip::configure(meta, income, min_range, max_range, result, instance)
    }

    /// Synthesizes the circuit: one assigned range-check region, with the
    /// result cell bound to row 0 of the instance column.
    pub fn synthesize(&self, config: &IncomeRangeConfig, layouter: &mut Layouter)
        requires
            config.distinct(),
            config.in_bounds(
                old(layouter).region.advice@.len() as int,
                old(layouter).region.enabled@.len() as int,
            ),
        ensures
            final(layouter).region.enabled@ == old(layouter).region.enabled@.update(
                config.selector as int,
                true,
            ),
            final(layouter).region.advice@ == old(layouter).region.advice@.update(
                config.income as int,
                self.income,
            ).update(config.min_range as int, self.min_range).update(
                config.max_range as int,
                self.max_range,
            ).update(
                config.result as int,
                spec_range_result(self.income, self.min_range, self.max_range),
            ),
            final(layouter).bindings@ == old(layouter).bindings@.push(
                InstanceBinding {
                    column: config.result,
                    instance_column: config.instance,
                    row: 0,
                },
            ),
    {
        let chip = IncomeRangeChip::construct(*config);

        let result_cell = chip.assign_range_check(
            &mut layouter.region,
            self.income,
            self.min_range,
            self.max_range,
        );

        layouter.constrain_instance(result_cell, config.instance, 0);
    }

    /// Runs the constraint system directly over this circuit's assignment
    /// and the given public instance column, with no proving backend: true
    /// exactly when all cell values are known and the instance publishes the
    /// containment's boolean result.
    pub fn mock_check(&self, instance: &Vec<u64>) -> (r: bool)
        requires
            instance@.len() == 1,
        ensures
            r == {
                &&& self.income is Known
                &&& self.min_range is Known
                &&& self.max_range is Known
                &&& instance@[0] == spec_instance_of(
                    spec_in_range(self.income->0, self.min_range->0, self.max_range->0),
                )
            },
    {
        let mut meta = ConstraintLayout::new();
        let config = Self::configure(&mut meta);
        let mut layouter = Layouter::new_for(&meta);
        self.synthesize(&config, &mut layouter);
        let ok = verify_constraints(&meta, &layouter, instance);
        proof {
            let g = BooleanGate { selector: config.selector, result_column: config.result };
            let ib = InstanceBinding {
                column: config.result,
                instance_column: config.instance,
                row: 0,
            };
            let region = layouter.region;
            assert(region.advice@[config.result as int] == spec_range_result(
                self.income,
                self.min_range,
                self.max_range,
            ));
            assert(region.enabled@[config.selector as int]);
            if ok {
                assert(spec_binding_satisfied(layouter.bindings@[0], region, instance@));
            } else if self.income is Known && self.min_range is Known && self.max_range is Known
                && instance@[0] == spec_instance_of(
                spec_in_range(self.income->0, self.min_range->0, self.max_range->0),
            ) {
                assert forall|i: int| 0 <= i < meta.gates@.len() implies spec_gate_satisfied(
                    #[trigger] meta.gates@[i],
                    region,
                ) by {
                    assert(meta.gates@[i] == g);
                }
                assert forall|i: int| 0 <= i < layouter.bindings@.len() implies
                    spec_binding_satisfied(#[trigger] layouter.bindings@[i], region, instance@) by {
                    assert(layouter.bindings@[i] == ib);
                }
                assert(spec_constraints_satisfied(meta, layouter, instance@));
                assert(false);
            }
        }
        ok
    }
}

} // verus!
