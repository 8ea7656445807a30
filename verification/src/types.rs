//! The data model of the harness: messages, latency samples, scenario
//! configurations and results, the error taxonomy, and the payload template.

use vstd::prelude::*;

verus! {

/// Error raised by `enqueue`. `Full` can only arise on a bounded backend;
/// `Closed` would mean the consumer side of the channel is gone.
#[derive(Clone, Copy, Debug, PartialEq, Eq, Structural)]
pub enum SendError {
    Closed,
    Full,
}

/// Error raised by `dequeue`. `Closed` is the normal end-of-stream signal once
/// every producer handle is released and the channel has drained; `Empty` is
/// the transient condition of a momentarily empty but still open channel.
#[derive(Clone, Copy, Debug, PartialEq, Eq, Structural)]
pub enum ReceiveError {
    Closed,
    Empty,
}

/// Error raised when writing the export document fails. It is fatal to the
/// whole invocation: the run's sole purpose is the export artifact.
#[derive(Clone, Copy, Debug, PartialEq, Eq, Structural)]
pub enum ExportError {
    IoFailure,
}

/// Selects the channel backend a scenario runs against. The bounded variant
/// carries its capacity; a capacity of zero rejects every enqueue that finds
/// no receive operation already in progress.
#[derive(Clone, Copy, Debug, PartialEq, Eq, Structural)]
pub enum ChannelKind {
    StdMpsc,
    CrossbeamUnbounded,
    CrossbeamBounded(usize),
}

/// Progress of one scenario. `Pending` and `Running` are the in-flight states;
/// `Completed` and `Failed` are terminal and final.
#[derive(Clone, Copy, Debug, PartialEq, Eq, Structural)]
pub enum ScenarioStatus {
    Pending,
    Running,
    Completed,
    Failed,
}

/// One timestamped message. A producer creates it immediately before enqueue;
/// it is immutable afterwards, and its payload is a fresh copy of the shared
/// template, so no two in-flight messages alias the same bytes.
#[derive(Debug)]
pub struct Msg {
    /// Nanoseconds since the scenario clock's origin, read just before enqueue.
    pub send_nanos: u128,
    /// Identity of the producer that issued the message.
    pub producer_id: u32,
    /// Per-producer issue index: the n-th message a producer sends carries n.
    pub seq: u32,
    /// Fresh copy of the payload template.
    pub payload: Vec<u8>,
}

impl Msg {
    /// Mathematical content of a message: timestamp, producer, issue index,
    /// and payload bytes.
    pub open spec fn model(self) -> (u128, u32, u32, Seq<u8>) {
        (self.send_nanos, self.producer_id, self.seq, self.payload@)
    }
}

/// One latency measurement, derived by the collector at dequeue time.
#[derive(Clone, Copy, Debug, PartialEq, Eq, Structural)]
pub struct LatencySample {
    /// Producer that issued the measured message.
    pub producer_id: u32,
    /// Per-producer issue index of the measured message.
    pub seq: u32,
    /// The measured message's send timestamp, carried over so that send order
    /// stays observable in the result.
    pub send_nanos: u128,
    /// Nanoseconds between the message's creation and its dequeue.
    pub duration: u128,
}

/// Immutable definition of one benchmark run.
#[derive(Clone, Copy, Debug, PartialEq, Eq, Structural)]
pub struct ScenarioConfig {
    pub producer_count: u32,
    pub messages_per_producer: u32,
    pub payload_size: u32,
    pub channel_kind: ChannelKind,
}

/// Outcome of one scenario: a human-readable label, the samples in arrival
/// order, and the terminal status. A failed scenario carries no samples.
pub struct ScenarioResult {
    pub label: String,
    pub samples: Vec<LatencySample>,
    pub status: ScenarioStatus,
}

/// The shared read-only payload template: a byte buffer of `size` zero bytes.
pub fn make_payload(size: u32) -> (r: Vec<u8>)
    ensures
        r@.len() == size as int,
        forall|i: int| 0 <= i < r@.len() ==> r@[i] == 0u8,
{
    let mut v: Vec<u8> = Vec::new();
    let mut i: u32 = 0;
    while i < size
        invariant
            i <= size,
            v@.len() == i as int,
            forall|j: int| 0 <= j < v@.len() ==> v@[j] == 0u8,
        decreases size - i,
    {
        v.push(0u8);
        i = i + 1;
    }
    v
}

/// A fresh deep copy of the payload template, one per message.
pub fn copy_payload(template: &Vec<u8>) -> (r: Vec<u8>)
    ensures
        r@ == template@,
{
    let mut v: Vec<u8> = Vec::new();
    let mut i: usize = 0;
    while i < template.len()
        invariant
            i <= template@.len(),
            v@ == template@.subrange(0, i as int),
        decreases template@.len() - i,
    {
        v.push(template[i]);
        proof {
            assert(v@ =~= template@.subrange(0, i + 1 as int));
        }
        i = i + 1;
    }
    proof {
        assert(v@ =~= template@);
    }
    v
}

/// The collector's measurement: the latency of `m` observed at arrival time
/// `now`, clamped at zero should the clock readings ever disagree. Under the
/// monotonic scenario clock the clamp never fires.
pub fn sample_of(m: &Msg, now: u128) -> (s: LatencySample)
    ensures
        s.producer_id == m.producer_id,
        s.seq == m.seq,
        s.send_nanos == m.send_nanos,
        s.duration == if now >= m.send_nanos { now - m.send_nanos } else { 0 },
        s.duration >= 0,
{
    let duration: u128 = if now >= m.send_nanos {
        now - m.send_nanos
    } else {
        0
    };
    LatencySample { producer_id: m.producer_id, seq: m.seq, send_nanos: m.send_nanos, duration }
}

} // verus!
