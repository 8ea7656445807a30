//! The benchmark orchestrator: the workload generator, the timing
//! collector, and the end-to-end scenario driver with its exact contract.

use vstd::arithmetic::div_mod::lemma_fundamental_div_mod_converse;
use vstd::prelude::*;

use crate::channel::{kind_cap, Channel, QueuedMsg};
use crate::clock::Clock;
use crate::label::{scenario_label, scenario_label_spec};
use crate::types::{make_payload, copy_payload, sample_of, LatencySample, Msg, ScenarioConfig,
    ScenarioResult, ScenarioStatus};

verus! {

/// The number of messages one scenario delivers when nothing fails.
pub open spec fn scenario_total(cfg: ScenarioConfig) -> int {
    cfg.producer_count * cfg.messages_per_producer
}

/// Whether every enqueue of the scenario's workload is accepted: always, on an
/// unbounded backend; on a bounded one, exactly when the whole workload fits
/// within the capacity that the backend can buffer ahead of the collector.
pub open spec fn scenario_succeeds(cfg: ScenarioConfig) -> bool {
    match kind_cap(cfg.channel_kind) {
        None => true,
        Some(cap) => scenario_total(cfg) <= cap,
    }
}

/// What machine limits force on a runnable configuration: the sample count
/// must be addressable, and a bounded backend's buffer allocation must not
/// overflow the backend's internal indices.
pub open spec fn config_valid(cfg: ScenarioConfig) -> bool {
    &&& scenario_total(cfg) <= usize::MAX as int
    &&& (kind_cap(cfg.channel_kind) matches Some(cap) ==> cap <= 0x3fff_ffff)
}

/// Everything `run_scenario` promises of its result:
/// - the label names the workload and the backend;
/// - the scenario completes exactly when the backend accepts the whole
///   workload, and then delivers one sample per message — the k-th sample, in
///   arrival order, belongs to producer `k / messages_per_producer` and
///   carries issue index `k % messages_per_producer`;
/// - send timestamps, drawn from the monotonic scenario clock, never decrease
///   in issue order (which equals arrival order here);
/// - a failed scenario carries no samples at all.
pub open spec fn scenario_post(cfg: ScenarioConfig, r: ScenarioResult) -> bool {
    &&& r.label@ == scenario_label_spec(cfg)
    &&& (r.status is Completed <==> scenario_succeeds(cfg))
    &&& (r.status is Completed || r.status is Failed)
    &&& (r.status is Completed ==> {
        &&& r.samples@.len() == scenario_total(cfg)
        &&& forall|i: int|
            0 <= i < r.samples@.len() ==> {
                &&& #[trigger] r.samples@[i].producer_id as int == i / (
                cfg.messages_per_producer as int)
                &&& r.samples@[i].seq as int == i % (cfg.messages_per_producer as int)
            }
        &&& forall|i: int, j: int|
            #![trigger r.samples@[i].send_nanos, r.samples@[j].send_nanos]
            0 <= i <= j < r.samples@.len() ==> r.samples@[i].send_nanos
                <= r.samples@[j].send_nanos
    })
    &&& (r.status is Failed ==> r.samples@.len() == 0)
}

/// The workload generator, one producer after the other: producer `id` issues
/// `messages_per_producer` messages, stamping each with the clock, its own
/// identity and its issue index, and enqueueing a fresh copy of the template.
/// The first rejected enqueue aborts the run and reports failure.
fn fill_channel(chan: &mut Channel, clock: &mut Clock, cfg: &ScenarioConfig, template: &Vec<u8>) -> (ok:
    bool)
    requires
        old(chan).is_open(),
        old(chan).contents().len() == 0,
        old(chan).capacity() == kind_cap(cfg.channel_kind),
        scenario_total(*cfg) <= usize::MAX as int,
    ensures
        final(chan).is_open(),
        final(chan).capacity() == kind_cap(cfg.channel_kind),
        ok == scenario_succeeds(*cfg),
        ok ==> {
            &&& final(chan).contents().len() == scenario_total(*cfg)
            &&& forall|k: int|
                0 <= k < final(chan).contents().len() ==> {
                    &&& #[trigger] final(chan).contents()[k].1 as int == k / (
                    cfg.messages_per_producer as int)
                    &&& final(chan).contents()[k].2 as int == k % (
                    cfg.messages_per_producer as int)
                    &&& final(chan).contents()[k].3 == template@
                }
            &&& forall|k: int, l: int|
                #![trigger final(chan).contents()[k].0, final(chan).contents()[l].0]
                0 <= k <= l < final(chan).contents().len() ==> final(chan).contents()[k].0
                    <= final(chan).contents()[l].0
        },
{
    let p = cfg.producer_count;
    let m = cfg.messages_per_producer;
    let mut id: u32 = 0;
    while id < p
        invariant
            id <= p,
            chan.is_open(),
            chan.capacity() == kind_cap(cfg.channel_kind),
            scenario_total(*cfg) <= usize::MAX as int,
            p == cfg.producer_count,
            m == cfg.messages_per_producer,
            chan.contents().len() == id * m,
            chan.capacity() matches Some(cap) ==> chan.contents().len() <= cap,
            forall|k: int|
                0 <= k < chan.contents().len() ==> {
                    &&& #[trigger] chan.contents()[k].1 as int == k / (m as int)
                    &&& chan.contents()[k].2 as int == k % (m as int)
                    &&& chan.contents()[k].3 == template@
                },
            forall|k: int|
                0 <= k < chan.contents().len() ==> #[trigger] chan.contents()[k].0
                    <= clock.last_reading(),
            forall|k: int, l: int|
                #![trigger chan.contents()[k].0, chan.contents()[l].0]
                0 <= k <= l < chan.contents().len() ==> chan.contents()[k].0
                    <= chan.contents()[l].0,
        decreases p - id,
    {
        proof {
            assert((id + 1) * m <= p * m && id * m + m == (id + 1) * m) by (nonlinear_arith)
                requires
                    0 <= id,
                    id < p,
                    0 <= m,
            ;
        }
        let mut s: u32 = 0;
        while s < m
            invariant
                s <= m,
                id < p,
                chan.is_open(),
                chan.capacity() == kind_cap(cfg.channel_kind),
                scenario_total(*cfg) <= usize::MAX as int,
                p == cfg.producer_count,
                m == cfg.messages_per_producer,
                id * m + m <= p * m,
                chan.contents().len() == id * m + s,
                chan.capacity() matches Some(cap) ==> chan.contents().len() <= cap,
                forall|k: int|
                    0 <= k < chan.contents().len() ==> {
                        &&& #[trigger] chan.contents()[k].1 as int == k / (m as int)
                        &&& chan.contents()[k].2 as int == k % (m as int)
                        &&& chan.contents()[k].3 == template@
                    },
                forall|k: int|
                    0 <= k < chan.contents().len() ==> #[trigger] chan.contents()[k].0
                        <= clock.last_reading(),
                forall|k: int, l: int|
                    #![trigger chan.contents()[k].0, chan.contents()[l].0]
                    0 <= k <= l < chan.contents().len() ==> chan.contents()[k].0
                        <= chan.contents()[l].0,
            decreases m - s,
        {
            let now = clock.now_nanos();
            let msg = Msg {
                send_nanos: now,
                producer_id: id,
                seq: s,
                payload: copy_payload(template),
            };
            let ghost before = chan.contents();
            match chan.enqueue(msg) {
                Ok(()) => {
                    proof {
                        lemma_fundamental_div_mod_converse(
                            id * m + s,
                            m as int,
                            id as int,
                            s as int,
                        );
                        assert(chan.contents() == before.push(
                            (now, id, s, template@),
                        ));
                        assert(forall|k: int|
                            0 <= k < before.len() ==> chan.contents()[k] == before[k]);
                        assert(forall|k: int|
                            0 <= k < before.len() ==> #[trigger] before[k].0 <= now);
                    }
                },
                Err(_) => {
                    // A rejected enqueue can only come from a saturated bounded
                    // backend, so the whole workload cannot fit its capacity.
                    proof {
                        assert(kind_cap(cfg.channel_kind) matches Some(cap) && cap < scenario_total(
                            *cfg,
                        )) by {
                            assert(id * m + s < p * m) by (nonlinear_arith)
                                requires
                                    0 <= s < m,
                                    0 <= id < p,
                            ;
                        }
                    }
                    return false;
                },
            }
            s = s + 1;
        }
        id = id + 1;
    }
    proof {
        assert(id * m == p * m);
    }
    true
}

/// The orchestrator's finish decision for one scenario: a run in which any
/// producer reported a send failure is `Failed` and its samples are discarded
/// (a silently dropped message must never be counted as a delivered sample);
/// otherwise the scenario is `Completed` with the samples exactly as
/// collected. Both outcomes are terminal.
pub fn finish_scenario(label: String, samples: Vec<LatencySample>, all_sends_ok: bool) -> (r:
    ScenarioResult)
    ensures
        r.label@ == label@,
        (r.status is Completed <==> all_sends_ok),
        (r.status is Completed || r.status is Failed),
        all_sends_ok ==> r.samples@ == samples@,
        !all_sends_ok ==> r.samples@.len() == 0,
{
    if all_sends_ok {
        ScenarioResult { label, samples, status: ScenarioStatus::Completed }
    } else {
        ScenarioResult { label, samples: Vec::new(), status: ScenarioStatus::Failed }
    }
}

/// Runs one scenario end to end: construct a fresh channel of the requested
/// kind, generate the workload, release the producer side, then collect —
/// dequeue until the end-of-stream signal, stamping each arrival and appending
/// its latency sample in arrival order. A scenario whose workload is rejected
/// ends `Failed` and contributes no samples.
pub fn run_scenario(cfg: &ScenarioConfig) -> (r: ScenarioResult)
    requires
        config_valid(*cfg),
    ensures
        scenario_post(*cfg, r),
{
    let label = scenario_label(cfg);
    let mut clock = Clock::new();
    let template = make_payload(cfg.payload_size);
    let mut chan = Channel::new(&cfg.channel_kind);
    let ok = fill_channel(&mut chan, &mut clock, cfg, &template);
    chan.close();
    let mut samples: Vec<LatencySample> = Vec::new();
    if ok {
        let ghost enq: Seq<QueuedMsg> = chan.contents();
        loop
            invariant
                !chan.is_open(),
                samples@.len() + chan.contents().len() == enq.len(),
                chan.contents() == enq.subrange(samples@.len() as int, enq.len() as int),
                enq.len() <= usize::MAX,
                forall|i: int|
                    #![trigger samples@[i]]
                    0 <= i < samples@.len() ==> {
                        &&& samples@[i].producer_id == enq[i].1
                        &&& samples@[i].seq == enq[i].2
                        &&& samples@[i].send_nanos == enq[i].0
                    },
            ensures
                samples@.len() == enq.len(),
                forall|i: int|
                    #![trigger samples@[i]]
                    0 <= i < samples@.len() ==> {
                        &&& samples@[i].producer_id == enq[i].1
                        &&& samples@[i].seq == enq[i].2
                        &&& samples@[i].send_nanos == enq[i].0
                    },
            decreases chan.contents().len(),
        {
            match chan.dequeue() {
                Ok(msg) => {
                    let now = clock.now_nanos();
                    let sample = sample_of(&msg, now);
                    samples.push(sample);
                    proof {
                        assert(chan.contents() =~= enq.subrange(
                            samples@.len() as int,
                            enq.len() as int,
                        ));
                    }
                },
                Err(_) => {
                    break ;
                },
            }
        }
        proof {
            assert forall|i: int, j: int|
                #![trigger samples@[i].send_nanos, samples@[j].send_nanos]
                0 <= i <= j < samples@.len() implies samples@[i].send_nanos
                <= samples@[j].send_nanos by {
                assert(samples@[i].producer_id == enq[i].1 && samples@[i].send_nanos == enq[i].0);
                assert(samples@[j].producer_id == enq[j].1 && samples@[j].send_nanos == enq[j].0);
                assert(enq[i].0 <= enq[j].0);
            }
        }
    }
    finish_scenario(label, samples, ok)
}

/// Runs a list of scenarios strictly one at a time, in order; a failed
/// scenario never aborts the ones after it. The i-th result answers the i-th
/// configuration.
pub fn run_scenarios(configs: &Vec<ScenarioConfig>) -> (rs: Vec<ScenarioResult>)
    requires
        forall|i: int| 0 <= i < configs@.len() ==> #[trigger] config_valid(configs@[i]),
    ensures
        rs@.len() == configs@.len(),
        forall|i: int| 0 <= i < rs@.len() ==> #[trigger] scenario_post(configs@[i], rs@[i]),
{
    let mut rs: Vec<ScenarioResult> = Vec::new();
    let mut i: usize = 0;
    while i < configs.len()
        invariant
            i <= configs@.len(),
            rs@.len() == i as int,
            forall|j: int| 0 <= j < configs@.len() ==> #[trigger] config_valid(configs@[j]),
            forall|j: int| 0 <= j < i as int ==> #[trigger] scenario_post(configs@[j], rs@[j]),
        decreases configs@.len() - i,
    {
        let cfg = configs[i];
        let r = run_scenario(&cfg);
        rs.push(r);
        i = i + 1;
    }
    rs
}

} // verus!
