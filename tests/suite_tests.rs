use benchlib::{BenchmarkSuite, RunConfig};

fn config(exclude: Option<&str>, required: Option<&str>) -> RunConfig {
    RunConfig {
        iterations: 1,
        exclude: exclude.map(|s| s.to_string()),
        required: required.map(|s| s.to_string()),
    }
}

fn suite_of(names: &[&'static str]) -> BenchmarkSuite {
    let mut suite = BenchmarkSuite::new();
    for &name in names {
        suite.register(name, || || 1u64);
    }
    suite
}

#[test]
fn new_suite_is_empty() {
    let suite = BenchmarkSuite::new();
    assert_eq!(suite.benchmark_count(), 0);
    assert!(suite.benchmark_names().is_empty());
    assert!(!suite.contains_name("a"));
}

#[test]
fn names_listed_in_sorted_order() {
    let suite = suite_of(&["b", "a", "c"]);
    assert_eq!(suite.benchmark_names(), vec!["a", "b", "c"]);
}

#[test]
fn run_plan_sorted_without_filter() {
    let suite = suite_of(&["b", "a", "c"]);
    let run = suite.start(&config(None, None));
    assert_eq!(suite.planned_names(&run), vec!["a", "b", "c"]);
}

#[test]
fn run_plan_filters() {
    let suite = suite_of(&["beta", "alpha2", "alpha1", "gamma"]);
    let run = suite.start(&config(Some("alpha2"), Some("alpha")));
    assert_eq!(suite.planned_names(&run), vec!["alpha1"]);
    let run = suite.start(&config(Some("g"), None));
    assert_eq!(suite.planned_names(&run), vec!["alpha1", "alpha2", "beta"]);
    let run = suite.start(&config(None, Some("zeta")));
    assert!(suite.planned_names(&run).is_empty());
}

#[test]
fn registered_names_are_found() {
    let suite = suite_of(&["zip", "unzip", "Zip"]);
    assert!(suite.contains_name("zip"));
    assert!(suite.contains_name("Zip"));
    assert!(suite.contains_name("unzip"));
    assert!(!suite.contains_name("zi"));
    assert!(!suite.contains_name("zipp"));
    assert_eq!(suite.benchmark_names(), vec!["Zip", "unzip", "zip"]);
}

#[test]
fn order_is_by_code_point() {
    let suite = suite_of(&["ab", "a", "b", "é", "aa", ""]);
    assert_eq!(suite.benchmark_names(), vec!["", "a", "aa", "ab", "b", "é"]);
}

#[test]
fn empty_run_finishes_at_once() {
    let suite = suite_of(&["a"]);
    let mut run = suite.start(&config(Some("a"), None));
    assert!(matches!(suite.step(&mut run), benchlib::RunStep::Finished));
    assert!(matches!(suite.step(&mut run), benchlib::RunStep::Finished));
}
