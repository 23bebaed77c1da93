//! The two-pass measurement of one benchmark body: hardware counters first,
//! wall-clock time second, each over a freshly constructed unit of work.
use vstd::prelude::*;
use crate::stats::BenchmarkStats;

verus! {

#[verifier::external_type_specification]
#[verifier::external_body]
pub struct ExIoError(std::io::Error);

#[verifier::external_type_specification]
#[verifier::external_body]
pub struct ExGroup(perf_event::Group);

#[verifier::external_type_specification]
#[verifier::external_body]
pub struct ExCounter(perf_event::Counter);

#[verifier::external_type_specification]
#[verifier::external_body]
pub struct ExCounts(perf_event::Counts);

#[verifier::external_type_specification]
#[verifier::external_body]
pub struct ExInstant(std::time::Instant);

/// Relies on `perf_event::Group::new`: opens an empty counter group for the
/// calling process, or reports why the host refused it.
pub assume_specification[ perf_event::Group::new ]() -> core::result::Result<
    perf_event::Group,
    std::io::Error,
>;

/// Relies on `perf_event::Group::enable`: starts all counters of the group at once.
pub assume_specification[ perf_event::Group::enable ](group: &mut perf_event::Group) -> core::result::Result<
    (),
    std::io::Error,
>;

/// Relies on `perf_event::Group::disable`: stops all counters of the group at once.
pub assume_specification[ perf_event::Group::disable ](group: &mut perf_event::Group) -> core::result::Result<
    (),
    std::io::Error,
>;

/// Relies on `std::time::Instant::now`: the current monotonic time.
pub assume_specification[ std::time::Instant::now ]() -> std::time::Instant;

/// Relies on `std::time::Instant::elapsed`: the time since the instant (zero
/// where the clock went back).
pub assume_specification[ std::time::Instant::elapsed ](
    instant: &std::time::Instant,
) -> core::time::Duration;

/// Relies on `std::hint::black_box`: the identity, opaque to the optimiser.
pub assume_specification<T>[ core::hint::black_box::<T> ](dummy: T) -> (r: T)
    ensures
        r == dummy,
;

/// The hardware events that a measurement counts.
#[derive(Debug, Clone, Copy, PartialEq, Eq)]
pub enum CounterKind {
    Cycles,
    Instructions,
    BranchMisses,
    CacheMisses,
    CacheReferences,
}

/// Why a measurement failed.
#[derive(Debug)]
pub enum MeasureError {
    /// The counter group could not be opened; commonly the host denies
    /// access to performance counters.
    GroupUnavailable(std::io::Error),
    /// The counter for one event could not be added to the group.
    CounterUnavailable(CounterKind, std::io::Error),
    /// Starting the counter group failed.
    Enable(std::io::Error),
    /// Stopping the counter group failed.
    Disable(std::io::Error),
    /// Reading the counter group failed.
    Read(std::io::Error),
    /// The values read back lack the counter for one event.
    MissingCount(CounterKind),
}

/// Relies on `perf_event::Builder` (`new`, `group`, `kind`, `build`): opens a
/// counter for `kind` as a member of `group`, or reports why it could not.
#[verifier::external_body]
fn add_counter(group: &mut perf_event::Group, kind: CounterKind) -> core::result::Result<
    perf_event::Counter,
    std::io::Error,
> {
    let event = match kind {
        CounterKind::Cycles => perf_event::events::Hardware::CPU_CYCLES,
        CounterKind::Instructions => perf_event::events::Hardware::INSTRUCTIONS,
        CounterKind::BranchMisses => perf_event::events::Hardware::BRANCH_MISSES,
        CounterKind::CacheMisses => perf_event::events::Hardware::CACHE_MISSES,
        CounterKind::CacheReferences => perf_event::events::Hardware::CACHE_REFERENCES,
    };
    perf_event::Builder::new().group(group).kind(event).build()
}

/// Relies on `perf_event::Counts::get`: the value read for `counter`, if the
/// counter belongs to the group that was read.
#[verifier::external_body]
fn count_of(counts: &perf_event::Counts, counter: &perf_event::Counter) -> Option<u64> {
    counts.get(counter).copied()
}

/// The counters of one group, one per event.
struct Counters {
    cycles: perf_event::Counter,
    instructions: perf_event::Counter,
    branch_misses: perf_event::Counter,
    cache_misses: perf_event::Counter,
    cache_references: perf_event::Counter,
}

/// The values read from the five counters of one counter pass.
#[derive(Debug, Clone, Copy, PartialEq, Eq)]
pub struct CounterValues {
    pub cycles: u64,
    pub instructions: u64,
    pub branch_misses: u64,
    pub cache_misses: u64,
    pub cache_references: u64,
}

/// A constructor that may be called at any time, and each of whose units of
/// work may be called once.
pub open spec fn constructor_ready<F: Fn() -> Bench, Bench: FnOnce() -> R, R>(constructor: F) -> bool {
    &&& call_requires(constructor, ())
    &&& forall|unit: Bench| #[trigger] call_ensures(constructor, (), unit) ==> call_requires(unit, ())
}

/// Consumes `dummy` so that the optimiser cannot prove it unused, and hands it
/// back, so that it is dropped only after the measured region.
pub fn black_box<T>(dummy: T) -> (r: T)
    ensures
        r == dummy,
{
    core::hint::black_box(dummy)
}

/// Adds the counter for `kind` to `group`, naming `kind` if that fails.
fn prepare_counter(group: &mut perf_event::Group, kind: CounterKind) -> (r: Result<
    perf_event::Counter,
    MeasureError,
>)
    ensures
        r is Err ==> r->Err_0 is CounterUnavailable && r->Err_0->CounterUnavailable_0 == kind,
{
    match add_counter(group, kind) {
        Ok(counter) => Ok(counter),
        Err(error) => Err(MeasureError::CounterUnavailable(kind, error)),
    }
}

/// An open counter group together with its five member counters. It is
/// made only by `open_counter_group`, which returns it once every counter
/// was added successfully; the counters live as long as the group.
struct CounterGroup {
    group: perf_event::Group,
    counters: Counters,
}

/// Opens a counter group and adds the five counters to it; a group that
/// cannot be opened, or the first counter that cannot be added, ends it.
fn open_counter_group() -> (r: Result<CounterGroup, MeasureError>)
    ensures
        r is Err ==> r->Err_0 is GroupUnavailable || r->Err_0 is CounterUnavailable,
{
    let mut group = match perf_event::Group::new() {
        Ok(group) => group,
        Err(error) => return Err(MeasureError::GroupUnavailable(error)),
    };
    let cycles = prepare_counter(&mut group, CounterKind::Cycles)?;
    let instructions = prepare_counter(&mut group, CounterKind::Instructions)?;
    let branch_misses = prepare_counter(&mut group, CounterKind::BranchMisses)?;
    let cache_misses = prepare_counter(&mut group, CounterKind::CacheMisses)?;
    let cache_references = prepare_counter(&mut group, CounterKind::CacheReferences)?;
    let counters = Counters { cycles, instructions, branch_misses, cache_misses, cache_references };
    Ok(CounterGroup { group, counters })
}

/// Relies on `perf_event::Group::read`: reads the values of all counters of
/// the group. That function asserts that the kernel returned the record it
/// sized for its members; a `CounterGroup` holds exactly the members that were
/// added successfully, all still open, so the record has that size.
#[verifier::external_body]
fn read_group(group: &mut CounterGroup) -> core::result::Result<perf_event::Counts, std::io::Error> {
    group.group.read()
}

/// Reads the value of `counter` out of `counts`.
fn value_of(counts: &perf_event::Counts, counter: &perf_event::Counter, kind: CounterKind) -> (r: Result<
    u64,
    MeasureError,
>)
    ensures
        r is Err ==> r->Err_0 == MeasureError::MissingCount(kind),
{
    match count_of(counts, counter) {
        Some(value) => Ok(value),
        None => Err(MeasureError::MissingCount(kind)),
    }
}

/// Reads the values of the five counters out of `counts`.
fn read_values(counts: &perf_event::Counts, counters: &Counters) -> (r: Result<
    CounterValues,
    MeasureError,
>)
    ensures
        r is Err ==> r->Err_0 is MissingCount,
{
    let cycles = value_of(counts, &counters.cycles, CounterKind::Cycles)?;
    let instructions = value_of(counts, &counters.instructions, CounterKind::Instructions)?;
    let branch_misses = value_of(counts, &counters.branch_misses, CounterKind::BranchMisses)?;
    let cache_misses = value_of(counts, &counters.cache_misses, CounterKind::CacheMisses)?;
    let cache_references = value_of(
        counts,
        &counters.cache_references,
        CounterKind::CacheReferences,
    )?;
    Ok(CounterValues { cycles, instructions, branch_misses, cache_misses, cache_references })
}

/// Decides the outcome of a measured counter region from what starting and
/// stopping the group returned. Stopping is reported first: it is the call
/// that ends the region; a failed start is surfaced only after the region.
pub fn counter_pass_outcome(
    enabled: Result<(), std::io::Error>,
    disabled: Result<(), std::io::Error>,
) -> (r: Result<(), MeasureError>)
    ensures
        disabled is Err ==> r is Err && r->Err_0 is Disable,
        disabled is Ok && enabled is Err ==> r is Err && r->Err_0 is Enable,
        disabled is Ok && enabled is Ok ==> r is Ok,
{
    match disabled {
        Err(error) => Err(MeasureError::Disable(error)),
        Ok(()) => match enabled {
            Err(error) => Err(MeasureError::Enable(error)),
            Ok(()) => Ok(()),
        },
    }
}

/// Combines the counter values of the counter pass with the elapsed time of
/// the wall-clock pass into one sample.
pub fn combine_stats(values: CounterValues, wall_time: core::time::Duration) -> (r: BenchmarkStats)
    ensures
        r.cycles == values.cycles,
        r.instructions == values.instructions,
        r.branch_misses == values.branch_misses,
        r.cache_misses == values.cache_misses,
        r.cache_references == values.cache_references,
        r.wall_time == wall_time,
{
    BenchmarkStats {
        cycles: values.cycles,
        instructions: values.instructions,
        branch_misses: values.branch_misses,
        cache_misses: values.cache_misses,
        cache_references: values.cache_references,
        wall_time,
    }
}

/// Benchmarks a single function generated by `benchmark_constructor`.
/// The constructor is called twice: the first unit of work runs under the
/// hardware counters, the second under the wall clock. Any failure of the
/// counter facility is returned; the unit of work itself always finishes
/// before a failure of starting the counters is acted upon. On success both
/// passes built a unit of work and ran it to its end; a failure of starting,
/// stopping or reading the counters comes after the counted unit ran.
pub fn benchmark_function<F: Fn() -> Bench, R, Bench: FnOnce() -> R>(
    name: &'static str,
    benchmark_constructor: F,
) -> (r: Result<BenchmarkStats, MeasureError>)
    requires
        constructor_ready(benchmark_constructor),
    ensures
        r is Ok ==> exists|u1: Bench, o1: R, u2: Bench, o2: R|
            #[trigger] call_ensures(benchmark_constructor, (), u1) && #[trigger] call_ensures(u1, (), o1)
            && #[trigger] call_ensures(benchmark_constructor, (), u2) && #[trigger] call_ensures(u2, (), o2),
        r is Err && (r->Err_0 is Enable || r->Err_0 is Disable || r->Err_0 is Read
            || r->Err_0 is MissingCount) ==> exists|u1: Bench, o1: R|
            #[trigger] call_ensures(benchmark_constructor, (), u1) && #[trigger] call_ensures(u1, (), o1),
{
    let mut group = open_counter_group()?;

    // Counter pass.
    let func = benchmark_constructor();
    let ghost u1 = func;
    // Keep the outcome of enabling for later: no branch inside the measured region.
    let enable_ret = group.group.enable();
    let output = func();
    let ghost o1 = output;
    let disable_ret = group.group.disable();
    // Consumed only after the counters stopped.
    black_box(output);
    assert(call_ensures(benchmark_constructor, (), u1) && call_ensures(u1, (), o1));
    counter_pass_outcome(enable_ret, disable_ret)?;
    let counts = match read_group(&mut group) {
        Ok(counts) => counts,
        Err(error) => return Err(MeasureError::Read(error)),
    };
    let values = read_values(&counts, &group.counters)?;

    // Wall-clock pass.
    let func = benchmark_constructor();
    let ghost u2 = func;
    let start = std::time::Instant::now();
    let output = func();
    let ghost o2 = output;
    let duration = start.elapsed();
    black_box(output);
    assert(call_ensures(benchmark_constructor, (), u2) && call_ensures(u2, (), o2));

    Ok(combine_stats(values, duration))
}

} // verus!
