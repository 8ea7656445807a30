use chanbench::channel::Channel;
use chanbench::clock::Clock;
use chanbench::scenario::{run_scenario, run_scenarios};
use chanbench::types::{
    copy_payload, make_payload, sample_of, ChannelKind, Msg, ReceiveError, ScenarioConfig,
    ScenarioStatus, SendError,
};

fn cfg(p: u32, m: u32, b: u32, kind: ChannelKind) -> ScenarioConfig {
    ScenarioConfig {
        producer_count: p,
        messages_per_producer: m,
        payload_size: b,
        channel_kind: kind,
    }
}

fn msg(send_nanos: u128, producer_id: u32, seq: u32, payload: Vec<u8>) -> Msg {
    Msg {
        send_nanos,
        producer_id,
        seq,
        payload,
    }
}

#[test]
fn scenario_a_crossbeam_unbounded() {
    let r = run_scenario(&cfg(10, 10, 100, ChannelKind::CrossbeamUnbounded));
    assert_eq!(r.status, ScenarioStatus::Completed);
    assert_eq!(r.samples.len(), 100);
    for (i, s) in r.samples.iter().enumerate() {
        assert_eq!(s.producer_id as usize, i / 10);
        assert_eq!(s.seq as usize, i % 10);
    }
}

#[test]
fn scenario_a_std_mpsc() {
    let r = run_scenario(&cfg(10, 10, 100, ChannelKind::StdMpsc));
    assert_eq!(r.status, ScenarioStatus::Completed);
    assert_eq!(r.samples.len(), 100);
    for (i, s) in r.samples.iter().enumerate() {
        assert_eq!(s.producer_id as usize, i / 10);
        assert_eq!(s.seq as usize, i % 10);
    }
}

#[test]
fn scenario_b_single_producer() {
    let r = run_scenario(&cfg(1, 100, 100, ChannelKind::CrossbeamUnbounded));
    assert_eq!(r.status, ScenarioStatus::Completed);
    assert_eq!(r.samples.len(), 100);
    let mut prev: Option<&chanbench::types::LatencySample> = None;
    for s in r.samples.iter() {
        assert_eq!(s.producer_id, 0);
        if let Some(p) = prev {
            assert!(s.seq > p.seq);
            assert!(s.send_nanos >= p.send_nanos);
        }
        prev = Some(s);
    }
}

#[test]
fn scenario_b_std_mpsc() {
    let r = run_scenario(&cfg(1, 100, 100, ChannelKind::StdMpsc));
    assert_eq!(r.status, ScenarioStatus::Completed);
    assert_eq!(r.samples.len(), 100);
    for s in r.samples.iter() {
        assert_eq!(s.producer_id, 0);
    }
}

#[test]
fn rejecting_backend_fails_scenario() {
    let r = run_scenario(&cfg(10, 10, 100, ChannelKind::CrossbeamBounded(0)));
    assert_eq!(r.status, ScenarioStatus::Failed);
    assert_eq!(r.samples.len(), 0);
}

#[test]
fn bounded_with_room_completes() {
    let r = run_scenario(&cfg(10, 10, 100, ChannelKind::CrossbeamBounded(100)));
    assert_eq!(r.status, ScenarioStatus::Completed);
    assert_eq!(r.samples.len(), 100);
}

#[test]
fn bounded_one_short_fails() {
    let r = run_scenario(&cfg(10, 10, 100, ChannelKind::CrossbeamBounded(99)));
    assert_eq!(r.status, ScenarioStatus::Failed);
    assert_eq!(r.samples.len(), 0);
}

#[test]
fn zero_producers_complete_empty() {
    let r = run_scenario(&cfg(0, 10, 8, ChannelKind::CrossbeamUnbounded));
    assert_eq!(r.status, ScenarioStatus::Completed);
    assert_eq!(r.samples.len(), 0);
}

#[test]
fn failed_scenario_does_not_abort_run() {
    let configs = vec![
        cfg(2, 3, 16, ChannelKind::CrossbeamBounded(0)),
        cfg(2, 3, 16, ChannelKind::StdMpsc),
        cfg(2, 3, 16, ChannelKind::CrossbeamUnbounded),
    ];
    let results = run_scenarios(&configs);
    assert_eq!(results.len(), 3);
    assert_eq!(results[0].status, ScenarioStatus::Failed);
    assert_eq!(results[0].samples.len(), 0);
    assert_eq!(results[1].status, ScenarioStatus::Completed);
    assert_eq!(results[1].samples.len(), 6);
    assert_eq!(results[2].status, ScenarioStatus::Completed);
    assert_eq!(results[2].samples.len(), 6);
}

#[test]
fn repeat_run_same_count() {
    let c = cfg(4, 5, 32, ChannelKind::CrossbeamUnbounded);
    let r1 = run_scenario(&c);
    let r2 = run_scenario(&c);
    assert_eq!(r1.status, r2.status);
    assert_eq!(r1.samples.len(), r2.samples.len());
    assert_eq!(r1.samples.len(), 20);
}

#[test]
fn backend_count_identical() {
    let r1 = run_scenario(&cfg(4, 5, 32, ChannelKind::StdMpsc));
    let r2 = run_scenario(&cfg(4, 5, 32, ChannelKind::CrossbeamUnbounded));
    assert_eq!(r1.samples.len(), r2.samples.len());
    assert_eq!(r1.samples.len(), 20);
}

#[test]
fn channel_fifo_std() {
    let mut c = Channel::new(&ChannelKind::StdMpsc);
    assert!(c.enqueue(msg(5, 1, 0, vec![7u8, 8u8])).is_ok());
    assert!(c.enqueue(msg(9, 2, 0, vec![])).is_ok());
    c.close();
    let first = c.dequeue().unwrap();
    assert_eq!(first.send_nanos, 5);
    assert_eq!(first.producer_id, 1);
    assert_eq!(first.seq, 0);
    assert_eq!(first.payload, vec![7u8, 8u8]);
    let second = c.dequeue().unwrap();
    assert_eq!(second.producer_id, 2);
    assert_eq!(c.dequeue().unwrap_err(), ReceiveError::Closed);
}

#[test]
fn channel_fifo_crossbeam() {
    let mut c = Channel::new(&ChannelKind::CrossbeamUnbounded);
    assert!(c.enqueue(msg(5, 1, 0, vec![7u8])).is_ok());
    assert!(c.enqueue(msg(9, 1, 1, vec![8u8])).is_ok());
    c.close();
    let first = c.dequeue().unwrap();
    assert_eq!(first.seq, 0);
    assert_eq!(first.payload, vec![7u8]);
    let second = c.dequeue().unwrap();
    assert_eq!(second.seq, 1);
    assert_eq!(c.dequeue().unwrap_err(), ReceiveError::Closed);
}

#[test]
fn bounded_channel_reports_full() {
    let mut c = Channel::new(&ChannelKind::CrossbeamBounded(1));
    assert!(c.enqueue(msg(1, 0, 0, vec![])).is_ok());
    assert_eq!(c.enqueue(msg(2, 0, 1, vec![])).unwrap_err(), SendError::Full);
    c.close();
    assert_eq!(c.dequeue().unwrap().seq, 0);
    assert_eq!(c.dequeue().unwrap_err(), ReceiveError::Closed);
}

#[test]
fn zero_capacity_rejects_immediately() {
    let mut c = Channel::new(&ChannelKind::CrossbeamBounded(0));
    assert_eq!(c.enqueue(msg(1, 0, 0, vec![])).unwrap_err(), SendError::Full);
    c.close();
    assert_eq!(c.dequeue().unwrap_err(), ReceiveError::Closed);
}

#[test]
fn sample_of_exact_duration() {
    let m = msg(20, 3, 4, vec![0u8]);
    let s = sample_of(&m, 50);
    assert_eq!(s.producer_id, 3);
    assert_eq!(s.seq, 4);
    assert_eq!(s.send_nanos, 20);
    assert_eq!(s.duration, 30);
}

#[test]
fn sample_of_clamps_at_zero() {
    let m = msg(20, 3, 4, vec![]);
    let s = sample_of(&m, 10);
    assert_eq!(s.duration, 0);
}

#[test]
fn payload_template_zeroed_and_copied() {
    let t = make_payload(100);
    assert_eq!(t.len(), 100);
    assert!(t.iter().all(|b| *b == 0));
    let c = copy_payload(&t);
    assert_eq!(c, t);
    let empty = make_payload(0);
    assert_eq!(empty.len(), 0);
}

#[test]
fn clock_readings_never_decrease() {
    let mut c = Clock::new();
    let a = c.now_nanos();
    let b = c.now_nanos();
    assert!(b >= a);
    assert_eq!(c.last(), b);
}

#[test]
fn finish_keeps_samples_on_success() {
    let samples = vec![sample_of(&msg(1, 0, 0, vec![]), 3)];
    let r = chanbench::scenario::finish_scenario("kept".to_string(), samples, true);
    assert_eq!(r.status, ScenarioStatus::Completed);
    assert_eq!(r.label, "kept");
    assert_eq!(r.samples.len(), 1);
    assert_eq!(r.samples[0].duration, 2);
}

#[test]
fn finish_discards_samples_on_failure() {
    let samples = vec![sample_of(&msg(1, 0, 0, vec![]), 3)];
    let r = chanbench::scenario::finish_scenario("lost".to_string(), samples, false);
    assert_eq!(r.status, ScenarioStatus::Failed);
    assert_eq!(r.label, "lost");
    assert_eq!(r.samples.len(), 0);
}
