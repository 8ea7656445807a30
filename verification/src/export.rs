//! The export document: one named latency series per successful scenario.

use vstd::prelude::*;

use crate::types::{LatencySample, ScenarioResult};

verus! {

/// One labeled latency series of the export document: the scenario's name and
/// its latency values in nanoseconds, in arrival order. Every series is drawn
/// as a line.
pub struct Series {
    pub name: String,
    pub data: Vec<u128>,
}

impl Series {
    /// Mathematical content of a series: its name and its values.
    pub open spec fn model(self) -> (Seq<char>, Seq<u128>) {
        (self.name@, self.data@)
    }
}

/// The visualization-ready document: one named series per successful scenario,
/// in scenario order. Failed scenarios are excluded.
pub struct ExportDoc {
    pub series: Vec<Series>,
}

impl ExportDoc {
    /// Mathematical content of the document.
    pub open spec fn model(self) -> Seq<(Seq<char>, Seq<u128>)> {
        self.series@.map(|i: int, s: Series| s.model())
    }
}

/// The latency values of a sample sequence, in order.
pub open spec fn durations_of(samples: Seq<LatencySample>) -> Seq<u128> {
    samples.map(|i: int, s: LatencySample| s.duration)
}

/// What the export document holds for a given result list: the completed
/// results in order, each contributing its label and its latency values.
pub open spec fn export_model(results: Seq<ScenarioResult>) -> Seq<(Seq<char>, Seq<u128>)>
    decreases results.len(),
{
    if results.len() == 0 {
        Seq::empty()
    } else {
        let rest = export_model(results.drop_last());
        if results.last().status is Completed {
            rest.push((results.last().label@, durations_of(results.last().samples@)))
        } else {
            rest
        }
    }
}

/// The kind of every exported series: the chart draws each series as a line.
pub fn series_kind() -> (r: &'static str)
    ensures
        r@ == "line"@,
{
    "line"
}

/// Copies the latency values of one result's samples, in arrival order.
fn collect_durations(samples: &Vec<LatencySample>) -> (data: Vec<u128>)
    ensures
        data@ == durations_of(samples@),
{
    let mut data: Vec<u128> = Vec::new();
    let mut i: usize = 0;
    while i < samples.len()
        invariant
            i <= samples@.len(),
            data@ == durations_of(samples@).subrange(0, i as int),
        decreases samples@.len() - i,
    {
        data.push(samples[i].duration);
        proof {
            assert(data@ =~= durations_of(samples@).subrange(0, i + 1 as int));
        }
        i = i + 1;
    }
    proof {
        assert(data@ =~= durations_of(samples@));
    }
    data
}

/// Assembles the export document for a finished run: exactly the completed
/// results, in order, each as a named series of its latency values. Failed
/// results contribute nothing.
pub fn build_export(results: &Vec<ScenarioResult>) -> (doc: ExportDoc)
    ensures
        doc.model() == export_model(results@),
{
    let mut series: Vec<Series> = Vec::new();
    let mut i: usize = 0;
    while i < results.len()
        invariant
            i <= results@.len(),
            series@.map(|k: int, s: Series| s.model()) == export_model(
                results@.subrange(0, i as int),
            ),
        decreases results@.len() - i,
    {
        let r = &results[i];
        let completed = match r.status {
            crate::types::ScenarioStatus::Completed => true,
            _ => false,
        };
        if completed {
            let name = r.label.clone();
            let data = collect_durations(&r.samples);
            series.push(Series { name, data });
        }
        proof {
            let prefix = results@.subrange(0, i + 1 as int);
            assert(prefix.drop_last() =~= results@.subrange(0, i as int));
            assert(prefix.last() == results@[i as int]);
            assert(series@.map(|k: int, s: Series| s.model()) =~= export_model(prefix));
        }
        i = i + 1;
    }
    proof {
        assert(results@.subrange(0, results@.len() as int) =~= results@);
    }
    ExportDoc { series }
}

} // verus!
