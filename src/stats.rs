//! Measurement records.
use vstd::prelude::*;

verus! {

/// One measurement sample: five hardware-counter deltas from the counter pass
/// and the elapsed time of the wall-clock pass.
#[derive(Debug, Clone, Copy)]
pub struct BenchmarkStats {
    pub cycles: u64,
    pub instructions: u64,
    pub branch_misses: u64,
    pub cache_misses: u64,
    pub cache_references: u64,
    pub wall_time: core::time::Duration,
}

/// All samples of one benchmark, one per iteration, in iteration order.
#[derive(Debug)]
pub struct BenchmarkResult {
    pub name: String,
    pub stats: Vec<BenchmarkStats>,
}

} // verus!
