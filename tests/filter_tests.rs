use benchlib::passes_filter;

#[test]
fn no_filters_pass_every_name() {
    for name in ["", "a", "alpha", "beta_2", "üñí"] {
        assert!(passes_filter(name, None, None));
    }
}

#[test]
fn required_prefix_must_match() {
    assert!(!passes_filter("beta", None, Some("al")));
    assert!(!passes_filter("al", None, Some("alpha")));
    assert!(passes_filter("alpha", None, Some("al")));
    assert!(passes_filter("alpha", None, Some("")));
}

#[test]
fn prefix_not_substring() {
    assert!(!passes_filter("xalpha", None, Some("alpha")));
    assert!(passes_filter("xalpha", Some("alpha"), None));
}

#[test]
fn no_case_folding() {
    assert!(!passes_filter("Alpha", None, Some("alpha")));
    assert!(passes_filter("Alpha", Some("alpha"), None));
}

#[test]
fn exclude_prefix_rejects() {
    assert!(!passes_filter("bench_slow", Some("bench"), None));
    assert!(passes_filter("fast", Some("bench"), None));
    assert!(!passes_filter("anything", Some(""), None));
}

#[test]
fn exclude_wins_over_required() {
    assert!(!passes_filter("compress_big", Some("compress_b"), Some("compress")));
    assert!(passes_filter("compress_small", Some("compress_b"), Some("compress")));
    assert!(!passes_filter("decompress", Some("compress_b"), Some("compress")));
}
