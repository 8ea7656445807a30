//! The laws of the harness, stated and proved over the public contracts.

use vstd::arithmetic::div_mod::lemma_fundamental_div_mod;
use vstd::prelude::*;

use crate::export::{durations_of, export_model};
use crate::scenario::{scenario_post, scenario_succeeds, scenario_total};
use crate::types::{ScenarioConfig, ScenarioResult};

verus! {

/// Every latency sample is non-negative: a duration is an unsigned count of
/// nanoseconds, computed by a subtraction clamped at zero, so no measurement
/// can ever report a negative latency.
pub proof fn lemma_duration_nonnegative(r: ScenarioResult, i: int)
    requires
        0 <= i < r.samples@.len(),
    ensures
        r.samples@[i].duration >= 0,
{
}

/// For configurations that differ only in the backend kind, and on which the
/// scenario succeeds, the sample count is identical across backends: it is the
/// workload size, never a property of the backend. (Only the latency values
/// themselves may differ.)
pub proof fn lemma_backend_independent_count(
    cfg1: ScenarioConfig,
    cfg2: ScenarioConfig,
    r1: ScenarioResult,
    r2: ScenarioResult,
)
    requires
        cfg1.producer_count == cfg2.producer_count,
        cfg1.messages_per_producer == cfg2.messages_per_producer,
        cfg1.payload_size == cfg2.payload_size,
        scenario_succeeds(cfg1),
        scenario_succeeds(cfg2),
        scenario_post(cfg1, r1),
        scenario_post(cfg2, r2),
    ensures
        r1.samples@.len() == r2.samples@.len(),
        r1.samples@.len() == scenario_total(cfg1),
{
}

/// Running the same configuration twice yields the same terminal status and
/// the same sample count both times; the backends hold no state across runs,
/// so only the latency values may vary.
pub proof fn lemma_repeat_same_count(cfg: ScenarioConfig, r1: ScenarioResult, r2: ScenarioResult)
    requires
        scenario_post(cfg, r1),
        scenario_post(cfg, r2),
    ensures
        r1.status == r2.status,
        r1.samples@.len() == r2.samples@.len(),
{
    if r1.status is Completed {
        assert(r2.status is Completed);
    } else {
        assert(r1.status is Failed && r2.status is Failed);
    }
}

/// Within one completed scenario, any two samples of the same producer stand
/// in issue order: the per-producer issue indices, stamped strictly
/// increasingly by the producer's sequential loop, are still strictly
/// increasing in arrival order, and the send timestamps never decrease along
/// it. The timestamps come from the monotonic scenario clock, whose
/// successive readings may be equal, so their strict increase is not
/// derivable; the strict order of sends is witnessed by the issue index.
pub proof fn lemma_per_producer_order(cfg: ScenarioConfig, r: ScenarioResult, i: int, j: int)
    requires
        scenario_post(cfg, r),
        r.status is Completed,
        0 <= i < j < r.samples@.len(),
        r.samples@[i].producer_id == r.samples@[j].producer_id,
    ensures
        r.samples@[i].seq < r.samples@[j].seq,
        r.samples@[i].send_nanos <= r.samples@[j].send_nanos,
{
    let m = cfg.messages_per_producer as int;
    assert(m > 0) by {
        if cfg.messages_per_producer == 0 {
            assert(cfg.producer_count * cfg.messages_per_producer == 0) by (nonlinear_arith)
                requires
                    cfg.messages_per_producer == 0,
            ;
        }
    }
    lemma_fundamental_div_mod(i, m);
    lemma_fundamental_div_mod(j, m);
}

/// The export document of a run whose scenarios all completed holds one series
/// per scenario, in order: the scenario's label names it, and its data array
/// has exactly that scenario's sample count.
pub proof fn lemma_export_counts(results: Seq<ScenarioResult>)
    requires
        forall|i: int| 0 <= i < results.len() ==> (#[trigger] results[i]).status is Completed,
    ensures
        export_model(results).len() == results.len(),
        forall|i: int|
            0 <= i < results.len() ==> {
                &&& (#[trigger] export_model(results)[i]).0 == results[i].label@
                &&& export_model(results)[i].1.len() == results[i].samples@.len()
            },
    decreases results.len(),
{
    if results.len() > 0 {
        let rest = results.drop_last();
        assert(forall|i: int| 0 <= i < rest.len() ==> (#[trigger] rest[i]).status is Completed);
        lemma_export_counts(rest);
        assert(durations_of(results.last().samples@).len() == results.last().samples@.len());
    }
}

/// A run in which exactly one scenario failed exports exactly one series
/// fewer than it ran scenarios: the failed scenario contributes nothing.
pub proof fn lemma_export_excludes_failed(results: Seq<ScenarioResult>, f: int)
    requires
        0 <= f < results.len(),
        results[f].status is Failed,
        forall|i: int|
            0 <= i < results.len() && i != f ==> (#[trigger] results[i]).status is Completed,
    ensures
        export_model(results).len() == results.len() - 1,
    decreases results.len(),
{
    let rest = results.drop_last();
    if f == results.len() - 1 {
        assert(forall|i: int| 0 <= i < rest.len() ==> (#[trigger] rest[i]).status is Completed);
        lemma_export_counts(rest);
    } else {
        assert(rest[f].status is Failed);
        lemma_export_excludes_failed(rest, f);
    }
}

/// A scenario whose backend rejects its workload ends `Failed`, carries zero
/// samples, and contributes nothing to the export, while every other scenario
/// of the same run still completes with its full sample count.
pub proof fn lemma_failed_scenario_isolated(
    configs: Seq<ScenarioConfig>,
    results: Seq<ScenarioResult>,
    f: int,
)
    requires
        results.len() == configs.len(),
        forall|i: int|
            0 <= i < results.len() ==> #[trigger] scenario_post(configs[i], results[i]),
        0 <= f < configs.len(),
        !scenario_succeeds(configs[f]),
        forall|i: int|
            0 <= i < configs.len() && i != f ==> #[trigger] scenario_succeeds(configs[i]),
    ensures
        results[f].status is Failed,
        results[f].samples@.len() == 0,
        forall|i: int|
            0 <= i < results.len() && i != f ==> {
                &&& (#[trigger] results[i]).status is Completed
                &&& results[i].samples@.len() == scenario_total(configs[i])
            },
        export_model(results).len() == results.len() - 1,
{
    assert(scenario_post(configs[f], results[f]));
    assert forall|i: int|
        0 <= i < results.len() && i != f implies {
        &&& (#[trigger] results[i]).status is Completed
        &&& results[i].samples@.len() == scenario_total(configs[i])
    } by {
        assert(scenario_post(configs[i], results[i]));
        assert(scenario_succeeds(configs[i]));
    }
    lemma_export_excludes_failed(results, f);
}

} // verus!
