//! Performance heuristics for constrained devices: recommended circuit
//! sizes, proof-time and memory estimates, and batch sizing, plus a
//! mobile-tuned variant of the trust score circuit that relies on a smaller
//! row-count exponent rather than a different layout.

use vstd::prelude::*;
use vstd::arithmetic::power2::{
    lemma2_to64, lemma2_to64_rest, lemma_pow2_adds, lemma_pow2_pos, lemma_pow2_strictly_increases,
    pow2,
};
use vstd::bits::lemma_u64_shl_is_mul;
use crate::layout::{ConstraintLayout, InstanceBinding, Layouter, WitnessValue};
use crate::trust_score::{TrustScoreChip, TrustScoreConfig, spec_comparison_result};

verus! {

/// Recommended circuit size parameters for different device types.
pub struct CircuitSizeRecommendations;

impl CircuitSizeRecommendations {
    /// Circuit size for high-end mobile devices (2^12 rows).
    pub const HIGH_END_MOBILE: u32 = 12;

    /// Circuit size for mid-range mobile devices (2^10 rows).
    pub const MID_RANGE_MOBILE: u32 = 10;

    /// Circuit size for low-end mobile devices (2^8 rows).
    pub const LOW_END_MOBILE: u32 = 8;

    /// Circuit size for desktop/server (2^16 rows).
    pub const DESKTOP: u32 = 16;
}

/// Device type classification for optimization.
#[derive(Debug, Clone, Copy)]
pub enum DeviceType {
    HighEndMobile,
    MidRangeMobile,
    LowEndMobile,
    Desktop,
}

/// Base proof time in milliseconds for a device class, at the k = 8
/// baseline.
pub open spec fn spec_base_time_ms(device_type: DeviceType) -> int {
    match device_type {
        DeviceType::HighEndMobile => 100,
        DeviceType::MidRangeMobile => 200,
        DeviceType::LowEndMobile => 500,
        DeviceType::Desktop => 50,
    }
}

/// Estimated proof time: the base time scaled by `k^2 / 64`, since proving
/// cost grows roughly with the square of the row-count exponent.
pub open spec fn spec_proof_time_ms(k: u32, device_type: DeviceType) -> int {
    spec_base_time_ms(device_type) * (k * k) / 64
}

/// Estimates proof generation time based on circuit size and device type.
pub fn estimate_proof_time_ms(k: u32, device_type: DeviceType) -> (r: u64)
    requires
        spec_base_time_ms(device_type) * (k as int) * (k as int) <= u64::MAX,
    ensures
        r == spec_proof_time_ms(k, device_type),
{
    let base_time: u64 = match device_type {
        DeviceType::HighEndMobile => 100,
        DeviceType::MidRangeMobile => 200,
        DeviceType::LowEndMobile => 500,
        DeviceType::Desktop => 50,
    };

    proof {
        assert((k as int) * (k as int) <= u64::MAX) by (nonlinear_arith)
            requires
                0 <= k as int <= 0xffff_ffff,
        ;
        assert((base_time as int) * ((k as int) * (k as int)) == (base_time as int) * (k as int) * (
        k as int)) by (nonlinear_arith);
    }
    (base_time * ((k as u64) * (k as u64))) / 64
}

/// The recommended row-count exponent for a device class.
pub open spec fn spec_recommended_k(device_type: DeviceType) -> u32 {
    match device_type {
        DeviceType::HighEndMobile => 12,
        DeviceType::MidRangeMobile => 10,
        DeviceType::LowEndMobile => 8,
        DeviceType::Desktop => 16,
    }
}

/// Gets the recommended circuit size for a device type.
pub fn get_recommended_k(device_type: DeviceType) -> (r: u32)
    ensures
        r == spec_recommended_k(device_type),
{
    match device_type {
        DeviceType::HighEndMobile => CircuitSizeRecommendations::HIGH_END_MOBILE,
        DeviceType::MidRangeMobile => CircuitSizeRecommendations::MID_RANGE_MOBILE,
        DeviceType::LowEndMobile => CircuitSizeRecommendations::LOW_END_MOBILE,
        DeviceType::Desktop => CircuitSizeRecommendations::DESKTOP,
    }
}

/// Checks if a circuit size is suitable for mobile devices: at most the
/// high-end mobile recommendation.
pub fn is_mobile_suitable(k: u32) -> (r: bool)
    ensures
        r == (k <= 12),
{
    k <= CircuitSizeRecommendations::HIGH_END_MOBILE
}

/// Estimated memory in MB: 32 bytes per row, at least 1 MB, plus a 10 MB
/// overhead for witness data and the proving key.
pub open spec fn spec_memory_usage_mb(k: u32) -> int {
    let base = (pow2(k as nat) * 32) / (1024 * 1024);
    (if base < 1 {
        1int
    } else {
        base as int
    }) + 10
}

/// Estimates memory usage in MB for a given circuit size.
pub fn estimate_memory_usage_mb(k: u32) -> (r: u64)
    requires
        k < 59,
    ensures
        r == spec_memory_usage_mb(k),
{
    proof {
        lemma_pow2_adds(k as nat, 5);
        lemma_pow2_strictly_increases((k + 5) as nat, 64);
        lemma2_to64();
        lemma2_to64_rest();
        lemma_pow2_pos(k as nat);
        lemma_u64_shl_is_mul(1u64, k as u64);
    }
    let rows: u64 = 1u64 << (k as u64);
    let base_memory = (rows * 32) / (1024 * 1024);
    let floored = if base_memory < 1 {
        1
    } else {
        base_memory
    };
    floored + 10
}

/// The optimal number of proofs per batch for a device class.
pub open spec fn spec_optimal_batch_size(device_type: DeviceType) -> usize {
    match device_type {
        DeviceType::HighEndMobile => 5,
        DeviceType::MidRangeMobile => 3,
        DeviceType::LowEndMobile => 1,
        DeviceType::Desktop => 10,
    }
}

/// Optimal batch size for different device types.
pub fn get_optimal_batch_size(device_type: DeviceType) -> (r: usize)
    ensures
        r == spec_optimal_batch_size(device_type),
{
    match device_type {
        DeviceType::HighEndMobile => 5,
        DeviceType::MidRangeMobile => 3,
        DeviceType::LowEndMobile => 1,
        DeviceType::Desktop => 10,
    }
}

/// Checks if batch processing is recommended: more proofs than one optimal
/// batch holds.
pub fn should_use_batch_processing(num_proofs: usize, device_type: DeviceType) -> (r: bool)
    ensures
        r == (num_proofs > spec_optimal_batch_size(device_type)),
{
    let optimal_batch = get_optimal_batch_size(device_type);
    num_proofs > optimal_batch
}

/// The sequence split into consecutive chunks of `size` items, the last
/// chunk holding whatever remains.
pub open spec fn spec_chunks<T>(s: Seq<T>, size: nat) -> Seq<Seq<T>>
    decreases s.len()
        when size >= 1
{
    if s.len() == 0 {
        Seq::empty()
    } else if s.len() <= size {
        seq![s]
    } else {
        seq![s.take(size as int)] + spec_chunks(s.skip(size as int), size)
    }
}

/// Splits a large proof-generation task into device-friendly batches: the
/// items, in order, cut into chunks of the device's optimal batch size.
pub fn create_batches<T>(items: Vec<T>, device_type: DeviceType) -> (batches: Vec<Vec<T>>)
    ensures
        batches@.map_values(|b: Vec<T>| b@) == spec_chunks(
            items@,
            spec_optimal_batch_size(device_type) as nat,
        ),
{
    let batch_size = get_optimal_batch_size(device_type);
    let ghost orig = items@;
    let ghost size = batch_size as nat;
    let mut remaining = items;
    let mut batches: Vec<Vec<T>> = Vec::new();
    while remaining.len() > 0
        invariant
            batch_size == spec_optimal_batch_size(device_type),
            size == batch_size as nat,
            size >= 1,
            spec_chunks(orig, size) == batches@.map_values(|b: Vec<T>| b@) + spec_chunks(
                remaining@,
                size,
            ),
        decreases remaining@.len(),
    {
        let ghost before = remaining@;
        let mut chunk: Vec<T> = Vec::new();
        while chunk.len() < batch_size && remaining.len() > 0
            invariant
                chunk@.len() <= batch_size,
                chunk@ + remaining@ == before,
                chunk@.len() == batch_size || chunk@.len() == before.len() - remaining@.len(),
            decreases batch_size - chunk.len(),
        {
            let item = remaining.remove(0);
            chunk.push(item);
            proof {
                assert(chunk@ + remaining@ =~= before);
            }
        }
        proof {
            if before.len() <= size {
                assert(remaining@.len() == 0);
                assert(chunk@ =~= before);
                assert(spec_chunks(before, size) =~= seq![before]);
            } else {
                assert(chunk@.len() == size);
                assert(chunk@ =~= before.take(size as int));
                assert(remaining@ =~= before.skip(size as int));
            }
        }
        batches.push(chunk);
        proof {
            assert(batches@.map_values(|b: Vec<T>| b@) =~= batches@.drop_last().map_values(
                |b: Vec<T>| b@,
            ).push(batches@.last()@));
            assert(spec_chunks(orig, size) =~= batches@.map_values(|b: Vec<T>| b@) + spec_chunks(
                remaining@,
                size,
            ));
        }
    }
    proof {
        assert(spec_chunks(orig, size) =~= batches@.map_values(|b: Vec<T>| b@));
    }
    batches
}

/// Mobile-optimized version of the trust score circuit: the same layout and
/// assignment, relying on a smaller row-count exponent for its savings.
#[derive(Clone, Copy, PartialEq, Eq, Structural, Debug)]
pub struct MobileTrustScoreCircuit {
    pub trust_score: WitnessValue,
    pub threshold: WitnessValue,
}

impl MobileTrustScoreCircuit {
    pub fn new(trust_score: Option<u32>, threshold: u32) -> (r: Self)
        ensures
            r.trust_score == match trust_score {
                Some(score) => WitnessValue::Known(score as u64),
                None => WitnessValue::Unknown,
            },
            r.threshold == WitnessValue::Known(threshold as u64),
    {
        MobileTrustScoreCircuit {
            trust_score: match trust_score {
                Some(score) => WitnessValue::Known(score as u64),
                None => WitnessValue::Unknown,
            },
            threshold: WitnessValue::Known(threshold as u64),
        }
    }

    /// The structural instance used for key generation.
    pub fn without_witnesses(&self) -> (r: Self)
        ensures
            r.trust_score == WitnessValue::Unknown,
            r.threshold == self.threshold,
    {
        MobileTrustScoreCircuit { trust_score: WitnessValue::Unknown, threshold: self.threshold }
    }

    /// Allocates the same columns as the regular trust score circuit; the
    /// mobile variant declares no gate of its own and leaves
    /// equality-copying off, counting on the smaller `k` for its savings.
    pub fn configure(meta: &mut ConstraintLayout) -> (cfg: TrustScoreConfig)
        requires
            old(meta).wf(),
            old(meta).num_advice + 3 <= usize::MAX,
            old(meta).num_instance < usize::MAX,
            old(meta).num_selectors < usize::MAX,
        ensures
            final(meta).wf(),
            cfg == (TrustScoreConfig {
                trust_score: old(meta).num_advice,
                threshold: (old(meta).num_advice + 1) as usize,
                result: (old(meta).num_advice + 2) as usize,
                instance: old(meta).num_instance,
                selector: old(meta).num_selectors,
            }),
            final(meta).num_advice == old(meta).num_advice + 3,
            final(meta).num_instance == old(meta).num_instance + 1,
            final(meta).num_selectors == old(meta).num_selectors + 1,
            final(meta).gates@ == old(meta).gates@,
    {
        let trust_score = meta.advice_column();
        let threshold = meta.advice_column();
        let result = meta.advice_column();
        let instance = meta.instance_column();

        TrustScoreConfig {
            trust_score,
            threshold,
            result,
            instance,
            selector: meta.selector(),
        }
    }

    /// Synthesizes the circuit exactly as the regular trust score circuit
    /// does: one assigned comparison region, with the result cell bound to
    /// row 0 of the instance column.
    pub fn synthesize(&self, config: &TrustScoreConfig, layouter: &mut Layouter)
        requires
            config.distinct(),
            config.in_bounds(
                old(layouter).region.advice@.len() as int,
                old(layouter).region.enabled@.len() as int,
            ),
        ensures
            final(layouter).region.enabled@ == old(layouter).region.enabled@.update(
                config.selector as int,
                true,
            ),
            final(layouter).region.advice@ == old(layouter).region.advice@.update(
                config.trust_score as int,
                self.trust_score,
            ).update(config.threshold as int, self.threshold).update(
                config.result as int,
                spec_comparison_result(self.trust_score, self.threshold),
            ),
            final(layouter).bindings@ == old(layouter).bindings@.push(
                InstanceBinding {
                    column: config.result,
                    instance_column: config.instance,
                    row: 0,
                },
            ),
    {
        let chip = TrustScoreChip::construct(*config);

        let result_cell = chip.assign_comparison(
            &mut layouter.region,
            self.trust_score,
            self.threshold,
        );

        layouter.constrain_instance(result_cell, config.instance, 0);
    }
}

/// Configuration for circuits tuned to constrained devices: a reduced
/// column count and a smaller default row-count exponent.
pub struct OptimizedConfig {
    /// Reduced number of advice columns for mobile efficiency.
    pub advice_columns: Vec<usize>,
    /// Optimized selectors.
    pub selectors: Vec<usize>,
    /// Circuit size parameter (smaller for mobile).
    pub k: u32,
}

impl OptimizedConfig {
    /// Creates a new optimized configuration for mobile devices: allocates
    /// the requested advice columns and selectors, enables equality-copying
    /// on every advice column, and fixes `k` at the mid-range mobile size.
    pub fn new_mobile_optimized(
        meta: &mut ConstraintLayout,
        num_advice: usize,
        num_selectors: usize,
    ) -> (r: Self)
        requires
            old(meta).wf(),
            old(meta).num_advice + num_advice <= usize::MAX,
            old(meta).num_selectors + num_selectors <= usize::MAX,
        ensures
            final(meta).wf(),
            r.k == 10,
            r.advice_columns@.len() == num_advice,
            forall|i: int|
                0 <= i < num_advice ==> r.advice_columns@[i] == old(meta).num_advice + i,
            r.selectors@.len() == num_selectors,
            forall|i: int|
                0 <= i < num_selectors ==> r.selectors@[i] == old(meta).num_selectors + i,
            final(meta).num_advice == old(meta).num_advice + num_advice,
            final(meta).num_selectors == old(meta).num_selectors + num_selectors,
            final(meta).num_instance == old(meta).num_instance,
            final(meta).gates@ == old(meta).gates@,
            forall|i: int|
                old(meta).num_advice <= i < old(meta).num_advice + num_advice
                    ==> #[trigger] final(meta).equality@[i] == true,
    {
        let ghost advice0 = meta.num_advice as int;
        let ghost selectors0 = meta.num_selectors as int;
        let mut advice_columns: Vec<usize> = Vec::new();
        let mut i: usize = 0;
        while i < num_advice
            invariant
                i <= num_advice,
                meta.wf(),
                advice_columns@.len() == i,
                forall|j: int| 0 <= j < i ==> advice_columns@[j] == advice0 + j,
                meta.num_advice == advice0 + i,
                advice0 + num_advice <= usize::MAX,
                meta.num_instance == old(meta).num_instance,
                meta.num_selectors == old(meta).num_selectors,
                meta.gates@ == old(meta).gates@,
            decreases num_advice - i,
        {
            let c = meta.advice_column();
            advice_columns.push(c);
            i = i + 1;
        }

        let mut selectors: Vec<usize> = Vec::new();
        let mut s: usize = 0;
        while s < num_selectors
            invariant
                s <= num_selectors,
                meta.wf(),
                selectors@.len() == s,
                forall|j: int| 0 <= j < s ==> selectors@[j] == selectors0 + j,
                meta.num_selectors == selectors0 + s,
                selectors0 + num_selectors <= usize::MAX,
                meta.num_advice == advice0 + num_advice,
                meta.num_instance == old(meta).num_instance,
                meta.gates@ == old(meta).gates@,
                advice_columns@.len() == num_advice,
                forall|j: int| 0 <= j < num_advice ==> advice_columns@[j] == advice0 + j,
            decreases num_selectors - s,
        {
            let c = meta.selector();
            selectors.push(c);
            s = s + 1;
        }

        let num_cols = advice_columns.len();
        let mut e: usize = 0;
        while e < num_cols
            invariant
                e <= num_cols,
                num_cols == num_advice,
                0 <= advice0,
                meta.wf(),
                meta.num_advice == advice0 + num_advice,
                meta.num_instance == old(meta).num_instance,
                meta.num_selectors == selectors0 + num_selectors,
                meta.gates@ == old(meta).gates@,
                advice_columns@.len() == num_advice,
                forall|j: int| 0 <= j < num_advice ==> advice_columns@[j] == advice0 + j,
                forall|j: int| advice0 <= j < advice0 + e ==> #[trigger] meta.equality@[j] == true,
            decreases num_cols - e,
        {
            let ghost prev_eq = meta.equality@;
            proof {
                assert(prev_eq.len() == advice0 + num_advice);
            }
            let col = advice_columns[e];
            meta.enable_equality(col);
            proof {
                assert(meta.equality@ == prev_eq.update(col as int, true));
                assert forall|j: int|
                    advice0 <= j < advice0 + e + 1 implies #[trigger] meta.equality@[j]
                    == true by {
                    if j < advice0 + e {
                        assert(prev_eq[j] == true);
                    } else {
                        assert(j == col as int);
                    }
                }
            }
            e = e + 1;
        }

        OptimizedConfig { advice_columns, selectors, k: 10 }
    }
}

} // verus!
