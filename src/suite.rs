//! The benchmark registry and the suite driver.
use vstd::prelude::*;
use crate::measure::{benchmark_function, constructor_ready, MeasureError};
use crate::order::{
    compare_names, lemma_lex_lt_total, lemma_lex_lt_transitive, lemma_strictly_sorted_no_duplicates,
    lex_lt, strictly_sorted,
};
use crate::stats::BenchmarkStats;

verus! {

/// A benchmark behind one uniform signature, whatever its constructor, its
/// captured state and the result of its unit of work.
trait ErasedBenchmark {
    spec fn ready(&self) -> bool;

    fn measure(&self) -> Result<BenchmarkStats, MeasureError>
        requires
            self.ready(),
    ;
}

/// A registered constructor with its name.
struct Registered<F, Bench, R> {
    name: &'static str,
    constructor: F,
    marker: core::marker::PhantomData<(Bench, R)>,
}

impl<F: Fn() -> Bench, Bench: FnOnce() -> R, R> ErasedBenchmark for Registered<F, Bench, R> {
    spec fn ready(&self) -> bool {
        constructor_ready::<F, Bench, R>(self.constructor)
    }

    fn measure(&self) -> Result<BenchmarkStats, MeasureError> {
        benchmark_function(self.name, &self.constructor)
    }
}

/// Type-erased function that executes a single benchmark.
struct BenchmarkWrapper {
    func: Box<dyn ErasedBenchmark>,
}

/// One entry of the registry: a name and its type-erased benchmark.
pub struct BenchmarkEntry {
    name: &'static str,
    def: BenchmarkWrapper,
}

/// A set of named benchmarks, kept in ascending name order.
pub struct BenchmarkSuite {
    benchmarks: Vec<BenchmarkEntry>,
}

impl View for BenchmarkSuite {
    /// The registered names, in ascending order.
    type V = Seq<Seq<char>>;

    closed spec fn view(&self) -> Seq<Seq<char>> {
        self.benchmarks@.map_values(|e: BenchmarkEntry| e.name@)
    }
}

impl BenchmarkSuite {
    /// The names are strictly ascending and every benchmark can be measured.
    pub closed spec fn wf(&self) -> bool {
        &&& strictly_sorted(self@)
        &&& forall|i: int| 0 <= i < self.benchmarks@.len() ==> (#[trigger] self.benchmarks@[i]).def.func.ready()
    }

    /// The entries, in ascending name order.
    pub closed spec fn entries(&self) -> Seq<BenchmarkEntry> {
        self.benchmarks@
    }

    /// Whether `name` may still be registered.
    pub open spec fn can_register(&self, name: Seq<char>) -> bool {
        !self@.contains(name)
    }

    pub fn new() -> (r: Self)
        ensures
            r.wf(),
            r@ == Seq::<Seq<char>>::empty(),
    {
        let r = BenchmarkSuite { benchmarks: Vec::new() };
        assert(r@ =~= Seq::<Seq<char>>::empty());
        r
    }

    /// Registers a single benchmark.
    /// `constructor` returns the closure that is benchmarked; it is called
    /// anew for each measurement pass. A name may be registered once.
    pub fn register<F: Fn() -> Bench + 'static, R: 'static, Bench: FnOnce() -> R + 'static>(
        &mut self,
        name: &'static str,
        constructor: F,
    )
        requires
            old(self).wf(),
            old(self).can_register(name@),
            constructor_ready(constructor),
        ensures
            final(self).wf(),
            final(self)@.len() == old(self)@.len() + 1,
            forall|n: Seq<char>| #[trigger] final(self)@.contains(n) <==> (old(self)@.contains(n) || n == name@),
            exists|pos: int|
                0 <= pos <= old(self)@.len() && #[trigger] final(self)@[pos] == name@
                    && final(self).entries() == old(self).entries().insert(pos, final(self).entries()[pos]),
    {
        let ghost names = self@;
        let mut pos: usize = 0;
        while pos < self.benchmarks.len()
            invariant
                self@ == names,
                self.wf(),
                !names.contains(name@),
                0 <= pos <= names.len(),
                names.len() == self.benchmarks@.len(),
                forall|k: int| 0 <= k < pos ==> lex_lt(#[trigger] names[k], name@),
            ensures
                self@ == names,
                self.wf(),
                names.len() == self.benchmarks@.len(),
                0 <= pos <= names.len(),
                forall|k: int| 0 <= k < pos ==> lex_lt(#[trigger] names[k], name@),
                pos < names.len() ==> lex_lt(name@, names[pos as int]),
            decreases self.benchmarks.len() - pos,
        {
            assert(names[pos as int] == self.benchmarks@[pos as int].name@);
            match compare_names(self.benchmarks[pos].name, name) {
                core::cmp::Ordering::Less => {},
                _ => {
                    proof {
                        lemma_lex_lt_total(names[pos as int], name@);
                    }
                    break;
                },
            }
            pos = pos + 1;
        }
        let registered = Registered::<F, Bench, R> { name, constructor, marker: core::marker::PhantomData };
        let def = BenchmarkWrapper { func: Box::new(registered) };
        let entry = BenchmarkEntry { name, def };
        assert(entry.def.func.ready());
        let ghost entries = self.benchmarks@;
        let ghost added = entry;
        self.benchmarks.insert(pos, entry);
        proof {
            let new_names = names.insert(pos as int, name@);
            entries.insert_ensures(pos as int, added);
            assert(self.entries() == entries.insert(pos as int, self.entries()[pos as int]));
            names.insert_ensures(pos as int, name@);
            assert forall|k: int| 0 <= k < new_names.len() implies self@[k] == new_names[k] by {
                if k < pos {
                    assert(self.benchmarks@[k] == entries[k]);
                } else if k > pos {
                    assert(self.benchmarks@[k] == entries[k - 1]);
                }
            }
            assert(self@ =~= new_names);
            assert forall|i: int| 0 <= i < self.benchmarks@.len() implies (
            #[trigger] self.benchmarks@[i]).def.func.ready() by {
                if i < pos {
                    assert(self.benchmarks@[i] == entries[i]);
                } else if i > pos {
                    assert(self.benchmarks@[i] == entries[i - 1]);
                } else {
                    assert(self.benchmarks@[i] == added);
                }
            }
            assert forall|i: int, j: int| 0 <= i < j < new_names.len() implies lex_lt(
                #[trigger] new_names[i],
                #[trigger] new_names[j],
            ) by {
                if j < pos {
                } else if i > pos {
                    assert(new_names[i] == names[i - 1]);
                    assert(new_names[j] == names[j - 1]);
                } else if i == pos {
                    assert(lex_lt(name@, names[pos as int]));
                    if j - 1 > pos {
                        lemma_lex_lt_transitive(name@, names[pos as int], names[j - 1]);
                    }
                } else if j == pos {
                } else {
                    assert(lex_lt(names[i], name@));
                    assert(lex_lt(name@, names[pos as int]));
                    lemma_lex_lt_transitive(names[i], name@, names[pos as int]);
                    if j - 1 > pos {
                        lemma_lex_lt_transitive(names[i], names[pos as int], names[j - 1]);
                    }
                }
            }
            assert forall|n: Seq<char>| #[trigger] self@.contains(n) <==> (names.contains(n) || n == name@) by {
                if names.contains(n) {
                    let k = choose|k: int| 0 <= k < names.len() && names[k] == n;
                    if k < pos {
                        assert(new_names[k] == n);
                    } else {
                        assert(new_names[k + 1] == n);
                    }
                }
                if n == name@ {
                    assert(new_names[pos as int] == n);
                }
                if self@.contains(n) && n != name@ {
                    let k = choose|k: int| 0 <= k < new_names.len() && new_names[k] == n;
                    if k < pos {
                        assert(names[k] == n);
                    } else {
                        assert(names[k - 1] == n);
                    }
                }
            }
        }
    }

    /// Whether a benchmark named `name` is registered.
    pub fn contains_name(&self, name: &str) -> (r: bool)
        ensures
            r == self@.contains(name@),
    {
        let mut i: usize = 0;
        while i < self.benchmarks.len()
            invariant
                0 <= i <= self@.len(),
                self@.len() == self.benchmarks@.len(),
                forall|k: int| 0 <= k < i ==> #[trigger] self@[k] != name@,
            decreases self.benchmarks.len() - i,
        {
            assert(self@[i as int] == self.benchmarks@[i as int].name@);
            match compare_names(self.benchmarks[i].name, name) {
                core::cmp::Ordering::Equal => {
                    return true;
                },
                _ => {},
            }
            i = i + 1;
        }
        false
    }

    /// The number of registered benchmarks.
    pub fn benchmark_count(&self) -> (r: usize)
        ensures
            r == self@.len(),
    {
        self.benchmarks.len()
    }

    /// The name at `index` of the ascending order.
    pub(crate) fn name_at(&self, index: usize) -> (r: &'static str)
        requires
            index < self@.len(),
        ensures
            r@ == self@[index as int],
    {
        self.benchmarks[index].name
    }

    /// One measurement of the benchmark at `index` of the ascending order.
    pub(crate) fn measure_at(&self, index: usize) -> Result<BenchmarkStats, MeasureError>
        requires
            self.wf(),
            index < self@.len(),
    {
        self.benchmarks[index].def.func.measure()
    }

    /// The registered names, in ascending order.
    pub fn benchmark_names(&self) -> (r: Vec<&'static str>)
        ensures
            r@.len() == self@.len(),
            forall|k: int| 0 <= k < r@.len() ==> (#[trigger] r@[k])@ == self@[k],
    {
        let mut r: Vec<&'static str> = Vec::new();
        let mut i: usize = 0;
        while i < self.benchmarks.len()
            invariant
                0 <= i <= self@.len(),
                self@.len() == self.benchmarks@.len(),
                r@.len() == i,
                forall|k: int| 0 <= k < i ==> (#[trigger] r@[k])@ == self@[k],
            decreases self.benchmarks.len() - i,
        {
            r.push(self.benchmarks[i].name);
            i = i + 1;
        }
        r
    }
}

/// A registered suite holds no name twice; so once `name` is registered, a
/// second registration of it is refused before anything runs.
pub proof fn lemma_registered_name_refused(suite: &BenchmarkSuite, name: Seq<char>)
    requires
        suite.wf(),
        suite@.contains(name),
    ensures
        suite@.no_duplicates(),
        !suite.can_register(name),
{
    lemma_strictly_sorted_no_duplicates(suite@);
}

/// The registered names of a suite are in strictly ascending order.
pub proof fn lemma_names_ascending(suite: &BenchmarkSuite)
    requires
        suite.wf(),
    ensures
        strictly_sorted(suite@),
{
}

} // verus!
