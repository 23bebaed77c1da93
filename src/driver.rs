//! Running a suite: which benchmarks run, in which order, and how many
//! times. The caller drives the run one benchmark at a time and publishes
//! each complete result before the next benchmark starts.
use vstd::prelude::*;
use crate::filter::{passes, passes_filter, opt_view};
use crate::measure::MeasureError;
use crate::order::{lex_lt, strictly_sorted};
use crate::stats::{BenchmarkResult, BenchmarkStats};
use crate::suite::BenchmarkSuite;

verus! {

/// What to run: each selected benchmark runs `iterations` times; a name is
/// selected when it starts with `required` (if given) and does not start
/// with `exclude` (if given).
pub struct RunConfig {
    pub iterations: u32,
    pub exclude: Option<String>,
    pub required: Option<String>,
}

/// The view of an optional string.
pub open spec fn opt_string_view(o: Option<String>) -> Option<Seq<char>> {
    match o {
        Some(s) => Some(s@),
        None => None,
    }
}

/// The names of `names` that pass the filter, in their order.
pub open spec fn selected(
    names: Seq<Seq<char>>,
    exclude: Option<Seq<char>>,
    required: Option<Seq<char>>,
) -> Seq<Seq<char>>
    decreases names.len(),
{
    if names.len() == 0 {
        Seq::empty()
    } else {
        let rest = selected(names.drop_last(), exclude, required);
        if passes(names.last(), exclude, required) {
            rest.push(names.last())
        } else {
            rest
        }
    }
}

/// A run in progress over a suite.
pub struct SuiteRun {
    order: Vec<usize>,
    next: usize,
    iterations: u32,
}

/// What the caller does next.
#[derive(Debug)]
pub enum RunStep {
    /// Publish this complete result, then step again.
    Emit(BenchmarkResult),
    /// Every selected benchmark has been run.
    Finished,
    /// A measurement failed; the run is over.
    Failed(MeasureError),
}

impl SuiteRun {
    /// The run refers to `suite`'s benchmarks in ascending position.
    pub closed spec fn valid_for(&self, suite: &BenchmarkSuite) -> bool {
        &&& self.next <= self.order@.len()
        &&& forall|k: int| 0 <= k < self.order@.len() ==> (#[trigger] self.order@[k]) < suite@.len()
        &&& forall|i: int, j: int|
            0 <= i < j < self.order@.len() ==> #[trigger] self.order@[i] < #[trigger] self.order@[j]
    }

    /// The names of the benchmarks that the run covers, in run order.
    pub closed spec fn planned(&self, suite: &BenchmarkSuite) -> Seq<Seq<char>> {
        self.order@.map_values(|i: usize| suite@[i as int])
    }

    /// How many of the planned benchmarks are done.
    pub closed spec fn position(&self) -> nat {
        self.next as nat
    }

    /// The number of measurements per benchmark.
    pub closed spec fn iteration_count(&self) -> nat {
        self.iterations as nat
    }

}

/// One step of `suite` took the run from `before` to `after` and emitted the
/// complete result of the next planned benchmark: named `name`, with
/// `samples` samples, one per configured iteration.
pub open spec fn emits_next(
    suite: &BenchmarkSuite,
    before: SuiteRun,
    after: SuiteRun,
    name: Seq<char>,
    samples: nat,
) -> bool {
    &&& before.position() < before.planned(suite).len()
    &&& name == before.planned(suite)[before.position() as int]
    &&& samples == before.iteration_count()
    &&& after.position() == before.position() + 1
    &&& after.planned(suite) == before.planned(suite)
    &&& after.iteration_count() == before.iteration_count()
}

/// After the first `k` of a chain of emitting steps, the run is at position
/// `k` of an unchanged plan.
proof fn lemma_stream_prefix(
    suite: &BenchmarkSuite,
    runs: Seq<SuiteRun>,
    names: Seq<Seq<char>>,
    samples: Seq<nat>,
    k: int,
)
    requires
        runs.len() == names.len() + 1,
        samples.len() == names.len(),
        runs[0].position() == 0,
        forall|i: int|
            0 <= i < names.len() ==> emits_next(suite, runs[i], runs[i + 1], names[i], samples[i]),
        0 <= k <= names.len(),
    ensures
        runs[k].position() == k,
        runs[k].planned(suite) == runs[0].planned(suite),
        runs[k].iteration_count() == runs[0].iteration_count(),
    decreases k,
{
    if k > 0 {
        lemma_stream_prefix(suite, runs, names, samples, k - 1);
        assert(emits_next(suite, runs[k - 1], runs[k], names[k - 1], samples[k - 1]));
    }
}

/// Results are streamed one benchmark at a time: starting from a fresh run,
/// consecutive emitting steps publish the planned benchmarks in plan order,
/// one result each, every result with the configured number of samples; once
/// as many results as planned benchmarks were published, the run is at its
/// end and the next step finishes it.
pub proof fn lemma_stream_follows_plan(
    suite: &BenchmarkSuite,
    runs: Seq<SuiteRun>,
    names: Seq<Seq<char>>,
    samples: Seq<nat>,
)
    requires
        runs.len() == names.len() + 1,
        samples.len() == names.len(),
        runs[0].position() == 0,
        forall|i: int|
            0 <= i < names.len() ==> emits_next(suite, runs[i], runs[i + 1], names[i], samples[i]),
    ensures
        names.len() <= runs[0].planned(suite).len(),
        forall|i: int|
            0 <= i < names.len() ==> #[trigger] names[i] == runs[0].planned(suite)[i] && samples[i]
                == runs[0].iteration_count(),
        runs.last().planned(suite) == runs[0].planned(suite),
        runs.last().position() == names.len(),
        names.len() == runs[0].planned(suite).len() ==> runs.last().position()
            == runs.last().planned(suite).len(),
{
    lemma_stream_prefix(suite, runs, names, samples, names.len() as int);
    assert forall|i: int| 0 <= i < names.len() implies #[trigger] names[i] == runs[0].planned(
        suite,
    )[i] && samples[i] == runs[0].iteration_count() by {
        lemma_stream_prefix(suite, runs, names, samples, i);
        assert(emits_next(suite, runs[i], runs[i + 1], names[i], samples[i]));
    }
    if names.len() > 0 {
        let last = names.len() - 1;
        lemma_stream_prefix(suite, runs, names, samples, last);
        assert(emits_next(suite, runs[last], runs[last + 1], names[last], samples[last]));
    }
}

/// The benchmarks of a run come in strictly ascending name order.
pub proof fn lemma_run_order_ascending(suite: &BenchmarkSuite, run: &SuiteRun)
    requires
        suite.wf(),
        run.valid_for(suite),
    ensures
        strictly_sorted(run.planned(suite)),
{
    crate::suite::lemma_names_ascending(suite);
    let p = run.planned(suite);
    assert forall|i: int, j: int| 0 <= i < j < p.len() implies lex_lt(#[trigger] p[i], #[trigger] p[j]) by {
        assert(run.order@[i] < run.order@[j]);
        assert(suite@[run.order@[i] as int] == p[i]);
        assert(suite@[run.order@[j] as int] == p[j]);
    }
}

impl BenchmarkSuite {
    /// Plans a run: the benchmarks whose names pass the filter, in ascending
    /// name order.
    pub fn start(&self, config: &RunConfig) -> (r: SuiteRun)
        requires
            self.wf(),
        ensures
            r.valid_for(self),
            r.planned(self) == selected(
                self@,
                opt_string_view(config.exclude),
                opt_string_view(config.required),
            ),
            r.position() == 0,
            r.iteration_count() == config.iterations,
    {
        let exclude: Option<&str> = match &config.exclude {
            Some(s) => Some(s.as_str()),
            None => None,
        };
        let required: Option<&str> = match &config.required {
            Some(s) => Some(s.as_str()),
            None => None,
        };
        let ghost ex = opt_string_view(config.exclude);
        let ghost req = opt_string_view(config.required);
        assert(opt_view(exclude) == ex);
        assert(opt_view(required) == req);
        let n = self.benchmark_count();
        let mut order: Vec<usize> = Vec::new();
        let mut i: usize = 0;
        while i < n
            invariant
                n == self@.len(),
                0 <= i <= n,
                opt_view(exclude) == ex,
                opt_view(required) == req,
                forall|k: int| 0 <= k < order@.len() ==> (#[trigger] order@[k]) < i,
                forall|a: int, b: int|
                    0 <= a < b < order@.len() ==> #[trigger] order@[a] < #[trigger] order@[b],
                order@.map_values(|k: usize| self@[k as int]) == selected(
                    self@.subrange(0, i as int),
                    ex,
                    req,
                ),
            decreases n - i,
        {
            let ghost before = order@;
            let name = self.name_at(i);
            assert(self@.subrange(0, i + 1).drop_last() =~= self@.subrange(0, i as int));
            assert(self@.subrange(0, i + 1).last() == self@[i as int]);
            if passes_filter(name, exclude, required) {
                order.push(i);
                assert(order@.map_values(|k: usize| self@[k as int]) =~= before.map_values(
                    |k: usize| self@[k as int],
                ).push(self@[i as int]));
            }
            i = i + 1;
        }
        assert(self@.subrange(0, n as int) =~= self@);
        SuiteRun { order, next: 0, iterations: config.iterations }
    }

    /// The names that `run` covers, in run order.
    pub fn planned_names(&self, run: &SuiteRun) -> (r: Vec<&'static str>)
        requires
            run.valid_for(self),
        ensures
            r@.len() == run.planned(self).len(),
            forall|k: int| 0 <= k < r@.len() ==> (#[trigger] r@[k])@ == run.planned(self)[k],
    {
        let mut r: Vec<&'static str> = Vec::new();
        let mut i: usize = 0;
        while i < run.order.len()
            invariant
                run.valid_for(self),
                0 <= i <= run.order@.len(),
                r@.len() == i,
                forall|k: int| 0 <= k < i ==> (#[trigger] r@[k])@ == run.planned(self)[k],
            decreases run.order.len() - i,
        {
            r.push(self.name_at(run.order[i]));
            i = i + 1;
        }
        r
    }

    /// Measures the benchmark at `index` `iterations` times, one sample per
    /// iteration in iteration order; the first failure ends it.
    fn run_iterations(&self, index: usize, iterations: u32) -> (r: Result<BenchmarkResult, MeasureError>)
        requires
            self.wf(),
            index < self@.len(),
        ensures
            r is Ok ==> r->Ok_0.name@ == self@[index as int] && r->Ok_0.stats@.len() == iterations,
    {
        let name = self.name_at(index);
        let mut stats: Vec<BenchmarkStats> = Vec::new();
        let mut i: u32 = 0;
        while i < iterations
            invariant
                self.wf(),
                index < self@.len(),
                i <= iterations,
                stats@.len() == i,
            decreases iterations - i,
        {
            let sample = self.measure_at(index)?;
            stats.push(sample);
            i = i + 1;
        }
        Ok(BenchmarkResult { name: String::from_str(name), stats })
    }

    /// Runs the next planned benchmark of `run` to completion and returns
    /// its result, with one sample per iteration; or says that the run is
    /// finished, or that a measurement failed, which ends the run.
    pub fn step(&self, run: &mut SuiteRun) -> (r: RunStep)
        requires
            self.wf(),
            old(run).valid_for(self),
        ensures
            final(run).valid_for(self),
            final(run).planned(self) == old(run).planned(self),
            final(run).iteration_count() == old(run).iteration_count(),
            old(run).position() == old(run).planned(self).len() ==> r is Finished
                && final(run).position() == old(run).position(),
            old(run).position() < old(run).planned(self).len() ==> match r {
                RunStep::Emit(result) => emits_next(
                    self,
                    *old(run),
                    *final(run),
                    result.name@,
                    result.stats@.len(),
                ),
                RunStep::Failed(_) => final(run).position() == old(run).planned(self).len(),
                RunStep::Finished => false,
            },
    {
        if run.next >= run.order.len() {
            return RunStep::Finished;
        }
        let index = run.order[run.next];
        match self.run_iterations(index, run.iterations) {
            Ok(result) => {
                run.next = run.next + 1;
                RunStep::Emit(result)
            },
            Err(error) => {
                run.next = run.order.len();
                RunStep::Failed(error)
            },
        }
    }
}

} // verus!
