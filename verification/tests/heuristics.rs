//! Device heuristics: proof-time and memory estimates, recommended circuit
//! sizes, and batch sizing.

use zk_circuits::optimizations::{
    create_batches, estimate_memory_usage_mb, estimate_proof_time_ms, get_optimal_batch_size,
    get_recommended_k, is_mobile_suitable, should_use_batch_processing, DeviceType,
};

#[test]
fn test_performance_estimates() {
    // Time estimation: a low-end device takes longer at the same size.
    let time_high_end = estimate_proof_time_ms(10, DeviceType::HighEndMobile);
    let time_low_end = estimate_proof_time_ms(10, DeviceType::LowEndMobile);

    assert!(time_low_end > time_high_end);

    // Memory estimation grows with circuit size.
    let memory_small = estimate_memory_usage_mb(8);
    let memory_large = estimate_memory_usage_mb(16);

    assert!(memory_large > memory_small);

    let memory_tiny = estimate_memory_usage_mb(4);
    let memory_huge = estimate_memory_usage_mb(20);

    assert!(memory_huge > memory_tiny);
}

#[test]
fn test_proof_time_exact_value() {
    // 100ms base, scaled by 10^2 / 64.
    assert_eq!(estimate_proof_time_ms(10, DeviceType::HighEndMobile), 100 * 100 / 64);
    // The k = 8 baseline: 8^2 / 64 leaves exactly the base time.
    assert_eq!(estimate_proof_time_ms(8, DeviceType::LowEndMobile), 500);
    assert_eq!(estimate_proof_time_ms(8, DeviceType::Desktop), 50);
}

#[test]
fn test_memory_usage_exact_value() {
    // 2^20 rows at 32 bytes each is 32 MB, plus the 10 MB overhead.
    assert_eq!(estimate_memory_usage_mb(20), 42);
    // Small circuits floor at 1 MB before the overhead.
    assert_eq!(estimate_memory_usage_mb(4), 11);
}

#[test]
fn test_mobile_suitability() {
    assert!(is_mobile_suitable(10));
    assert!(is_mobile_suitable(12));
    assert!(!is_mobile_suitable(16));
}

#[test]
fn test_batch_processing() {
    let items: Vec<u32> = (0..20).collect();

    let batches_mobile = create_batches(items.clone(), DeviceType::MidRangeMobile);
    let batches_desktop = create_batches(items, DeviceType::Desktop);

    // Mobile should have more, smaller batches.
    assert!(batches_mobile.len() > batches_desktop.len());

    for batch in &batches_mobile {
        assert!(batch.len() <= get_optimal_batch_size(DeviceType::MidRangeMobile));
    }
}

#[test]
fn test_batches_preserve_items_in_order() {
    let items: Vec<u32> = (0..10).collect();
    let batches = create_batches(items.clone(), DeviceType::MidRangeMobile);

    assert_eq!(batches.len(), 4);
    let rejoined: Vec<u32> = batches.into_iter().flatten().collect();
    assert_eq!(rejoined, items);
}

#[test]
fn test_recommended_k_values() {
    let k_high = get_recommended_k(DeviceType::HighEndMobile);
    let k_low = get_recommended_k(DeviceType::LowEndMobile);
    let k_desktop = get_recommended_k(DeviceType::Desktop);

    assert!(k_low < k_high);
    assert!(k_high < k_desktop);
}

#[test]
fn test_should_use_batch_processing() {
    assert!(!should_use_batch_processing(1, DeviceType::LowEndMobile));
    assert!(should_use_batch_processing(5, DeviceType::LowEndMobile));
    assert!(should_use_batch_processing(15, DeviceType::Desktop));
}
