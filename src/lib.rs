//! A micro-benchmark harness: a registry of named benchmarks, a prefix
//! filter, a two-pass measurement engine (hardware counters, then wall
//! clock) and a step-wise suite driver whose results the caller streams out.
pub mod driver;
pub mod filter;
pub mod measure;
pub mod order;
pub mod stats;
pub mod suite;

pub use driver::{RunConfig, RunStep, SuiteRun};
pub use filter::passes_filter;
pub use measure::{
    benchmark_function, black_box, combine_stats, counter_pass_outcome, CounterKind,
    CounterValues, MeasureError,
};
pub use stats::{BenchmarkResult, BenchmarkStats};
pub use suite::BenchmarkSuite;
