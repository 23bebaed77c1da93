use benchlib::{
    benchmark_function, black_box, combine_stats, counter_pass_outcome, BenchmarkSuite,
    CounterValues, MeasureError, RunConfig, RunStep,
};
use std::time::Duration;

fn io_error() -> std::io::Error {
    std::io::Error::new(std::io::ErrorKind::Other, "refused")
}

fn busy_loop(n: u64) -> u64 {
    let mut acc = 0u64;
    for i in 0..n {
        acc = acc.wrapping_add(black_box(i).wrapping_mul(i));
    }
    acc
}

/// Whether the error says that this host gives no access to the counters.
fn counters_denied(error: &MeasureError) -> bool {
    matches!(error, MeasureError::GroupUnavailable(_) | MeasureError::CounterUnavailable(..))
}

#[test]
fn black_box_is_identity() {
    assert_eq!(black_box(41u32), 41);
    assert_eq!(black_box(String::from("x")), "x");
}

#[test]
fn outcome_all_ok() {
    assert!(counter_pass_outcome(Ok(()), Ok(())).is_ok());
}

#[test]
fn outcome_enable_failed() {
    assert!(matches!(counter_pass_outcome(Err(io_error()), Ok(())), Err(MeasureError::Enable(_))));
}

#[test]
fn outcome_disable_failed_first() {
    assert!(matches!(counter_pass_outcome(Ok(()), Err(io_error())), Err(MeasureError::Disable(_))));
    assert!(matches!(
        counter_pass_outcome(Err(io_error()), Err(io_error())),
        Err(MeasureError::Disable(_))
    ));
}

#[test]
fn combine_keeps_every_field() {
    let values = CounterValues {
        cycles: 10,
        instructions: 20,
        branch_misses: 3,
        cache_misses: 4,
        cache_references: 50,
    };
    let stats = combine_stats(values, Duration::from_nanos(1234));
    assert_eq!(stats.cycles, 10);
    assert_eq!(stats.instructions, 20);
    assert_eq!(stats.branch_misses, 3);
    assert_eq!(stats.cache_misses, 4);
    assert_eq!(stats.cache_references, 50);
    assert_eq!(stats.wall_time, Duration::from_nanos(1234));
}

#[test]
fn busy_loop_samples_are_positive() {
    for _ in 0..3 {
        match benchmark_function("busy", || || busy_loop(100_000)) {
            Ok(stats) => {
                assert!(stats.wall_time > Duration::ZERO);
                assert!(stats.instructions > 0);
            }
            Err(error) => {
                assert!(counters_denied(&error), "{:?}", error);
                return;
            }
        }
    }
}

#[test]
fn two_benchmarks_three_iterations_stream() {
    let mut suite = BenchmarkSuite::new();
    suite.register("second", || || busy_loop(10));
    suite.register("first", || || busy_loop(10));
    let config = RunConfig { iterations: 3, exclude: None, required: None };
    let mut run = suite.start(&config);
    let mut names = Vec::new();
    loop {
        match suite.step(&mut run) {
            RunStep::Emit(result) => {
                assert_eq!(result.stats.len(), 3);
                names.push(result.name);
            }
            RunStep::Finished => break,
            RunStep::Failed(error) => {
                assert!(counters_denied(&error), "{:?}", error);
                assert!(names.is_empty());
                assert!(matches!(suite.step(&mut run), RunStep::Finished));
                return;
            }
        }
    }
    assert_eq!(names, vec!["first".to_string(), "second".to_string()]);
}

#[test]
fn end_to_end_alpha_beta() {
    let mut suite = BenchmarkSuite::new();
    suite.register("beta", || || busy_loop(1));
    suite.register("alpha", || || busy_loop(1000));
    let config = RunConfig { iterations: 2, exclude: None, required: None };
    let mut run = suite.start(&config);
    let mut names = Vec::new();
    loop {
        match suite.step(&mut run) {
            RunStep::Emit(result) => {
                assert_eq!(result.stats.len(), 2);
                for stats in &result.stats {
                    assert!(stats.wall_time >= Duration::ZERO);
                }
                names.push(result.name);
            }
            RunStep::Finished => break,
            RunStep::Failed(error) => {
                assert!(counters_denied(&error), "{:?}", error);
                return;
            }
        }
    }
    assert_eq!(names, vec!["alpha".to_string(), "beta".to_string()]);
}
