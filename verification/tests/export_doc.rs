use chanbench::export::build_export;
use chanbench::label::{fmt_u32, scenario_label};
use chanbench::scenario::run_scenario;
use chanbench::types::{
    ChannelKind, LatencySample, ScenarioConfig, ScenarioResult, ScenarioStatus,
};

fn sample(producer_id: u32, seq: u32, duration: u128) -> LatencySample {
    LatencySample {
        producer_id,
        seq,
        send_nanos: seq as u128,
        duration,
    }
}

fn completed(label: &str, durations: &[u128]) -> ScenarioResult {
    let samples = durations
        .iter()
        .enumerate()
        .map(|(i, d)| sample(0, i as u32, *d))
        .collect();
    ScenarioResult {
        label: label.to_string(),
        samples,
        status: ScenarioStatus::Completed,
    }
}

#[test]
fn export_two_series() {
    let r1 = completed("first", &[5, 6, 7]);
    let r2 = completed("second", &[9]);
    let doc = build_export(&vec![r1, r2]);
    assert_eq!(doc.series.len(), 2);
    assert_eq!(doc.series[0].name, "first");
    assert_eq!(doc.series[0].data, vec![5, 6, 7]);
    assert_eq!(doc.series[0].data.len(), 3);
    assert_eq!(doc.series[1].name, "second");
    assert_eq!(doc.series[1].data, vec![9]);
    assert_eq!(doc.series[1].data.len(), 1);
}

#[test]
fn export_skips_failed() {
    let r1 = completed("kept-a", &[1]);
    let failed = ScenarioResult {
        label: "dropped".to_string(),
        samples: vec![],
        status: ScenarioStatus::Failed,
    };
    let r2 = completed("kept-b", &[2, 3]);
    let doc = build_export(&vec![r1, failed, r2]);
    assert_eq!(doc.series.len(), 2);
    assert_eq!(doc.series[0].name, "kept-a");
    assert_eq!(doc.series[1].name, "kept-b");
}

#[test]
fn every_series_is_a_line() {
    assert_eq!(chanbench::export::series_kind(), "line");
}

#[test]
fn export_empty_run() {
    let doc = build_export(&vec![]);
    assert_eq!(doc.series.len(), 0);
}

#[test]
fn label_scenario_std() {
    let c = ScenarioConfig {
        producer_count: 10,
        messages_per_producer: 10,
        payload_size: 100,
        channel_kind: ChannelKind::StdMpsc,
    };
    assert_eq!(
        scenario_label(&c),
        "std-channel-10-thread-10-itemspre-100-payloadsize"
    );
}

#[test]
fn label_scenario_crossbeam() {
    let c = ScenarioConfig {
        producer_count: 1,
        messages_per_producer: 100,
        payload_size: 100,
        channel_kind: ChannelKind::CrossbeamUnbounded,
    };
    assert_eq!(
        scenario_label(&c),
        "crossbeam-channel-1-thread-100-itemspre-100-payloadsize"
    );
}

#[test]
fn label_scenario_bounded() {
    let c = ScenarioConfig {
        producer_count: 2,
        messages_per_producer: 3,
        payload_size: 4,
        channel_kind: ChannelKind::CrossbeamBounded(7),
    };
    assert_eq!(
        scenario_label(&c),
        "crossbeam-channel-bounded-2-thread-3-itemspre-4-payloadsize"
    );
}

#[test]
fn fmt_u32_values() {
    assert_eq!(fmt_u32(0), "0");
    assert_eq!(fmt_u32(7), "7");
    assert_eq!(fmt_u32(10), "10");
    assert_eq!(fmt_u32(105), "105");
    assert_eq!(fmt_u32(4294967295), "4294967295");
}

#[test]
fn run_result_carries_label() {
    let c = ScenarioConfig {
        producer_count: 10,
        messages_per_producer: 10,
        payload_size: 100,
        channel_kind: ChannelKind::CrossbeamUnbounded,
    };
    let r = run_scenario(&c);
    assert_eq!(
        r.label,
        "crossbeam-channel-10-thread-10-itemspre-100-payloadsize"
    );
}

#[test]
fn export_of_real_run_matches_counts() {
    let configs = vec![
        ScenarioConfig {
            producer_count: 10,
            messages_per_producer: 10,
            payload_size: 100,
            channel_kind: ChannelKind::StdMpsc,
        },
        ScenarioConfig {
            producer_count: 1,
            messages_per_producer: 100,
            payload_size: 100,
            channel_kind: ChannelKind::CrossbeamUnbounded,
        },
    ];
    let results = chanbench::scenario::run_scenarios(&configs);
    let doc = build_export(&results);
    assert_eq!(doc.series.len(), 2);
    assert_eq!(doc.series[0].data.len(), 100);
    assert_eq!(doc.series[1].data.len(), 100);
}
