//! End-to-end scenarios driven single-threadedly: requests are enqueued
//! through handles and the engine is stepped by hand.

use asynclog::clock::ManualClock;
use asynclog::engine::LogConfig;
use asynclog::engine::ReadPosition;
use asynclog::errors::LogError;
use asynclog::handle::AsyncLog;
use asynclog::handle::Runner;

fn fresh_dir(tag: &str) -> String {
    let nanos = std::time::SystemTime::now()
        .duration_since(std::time::UNIX_EPOCH)
        .unwrap()
        .as_nanos();
    format!("/tmp/asynclog_test_{}_{}", tag, nanos)
}

fn open_fresh(tag: &str) -> (Runner, AsyncLog) {
    let cfg = LogConfig::new_for_dir(fresh_dir(tag));
    AsyncLog::open(&cfg, 0).expect("unable to open log")
}

#[test]
fn single_append_then_read() {
    let (mut runner, log) = open_fresh("single");
    let mut clock = ManualClock::at(0);

    let fut = log.append(vec![0x41, 0x42, 0x43]);
    assert!(fut.poll().is_none());
    runner.step(&mut clock);
    assert_eq!(fut.wait(), Ok(0));

    let lo = log.last_offset();
    runner.step(&mut clock);
    assert_eq!(lo.wait(), Ok(0));

    let rd = log.read(ReadPosition::Offset(0), 1024);
    runner.step(&mut clock);
    let batch = rd.wait().expect("read should succeed");
    assert_eq!(batch.len(), 1);
    assert_eq!(batch.payload_at(0), Some(vec![0x41, 0x42, 0x43]));
    assert_eq!(batch.payload_at(1), None);
}

#[test]
fn batched_coalescing_three_producers() {
    let (mut runner, log) = open_fresh("coalesce");
    let mut clock = ManualClock::at(0);

    let logs = [log.clone(), log.clone(), log];
    let mut futures = Vec::new();
    for round in 0..30 {
        for (p, handle) in logs.iter().enumerate() {
            let payload = vec![p as u8, round as u8];
            futures.push((p, handle.append(payload)));
        }
    }
    runner.step(&mut clock);

    let mut offsets = Vec::new();
    let mut per_producer: [Vec<u64>; 3] = [Vec::new(), Vec::new(), Vec::new()];
    for (p, fut) in &futures {
        let off = fut.wait().expect("append should succeed");
        offsets.push(off);
        per_producer[*p].push(off);
    }

    // the 90 offsets cover {0..89} exactly
    offsets.sort();
    let expected: Vec<u64> = (0..90).collect();
    assert_eq!(offsets, expected);

    // each producer's own acknowledgments are strictly increasing
    for acks in &per_producer {
        for w in acks.windows(2) {
            assert!(w[0] < w[1]);
        }
    }
}

#[test]
fn batch_offsets_are_contiguous() {
    let (mut runner, log) = open_fresh("contiguous");
    let mut clock = ManualClock::at(0);

    let futs: Vec<_> = (0..10u8).map(|i| log.append(vec![i])).collect();
    runner.step(&mut clock);
    let offs: Vec<u64> = futs.iter().map(|f| f.wait().unwrap()).collect();
    for (i, off) in offs.iter().enumerate() {
        assert_eq!(*off, i as u64);
    }
}

#[test]
fn last_offset_empty_log_is_zero() {
    let (mut runner, log) = open_fresh("empty");
    let mut clock = ManualClock::at(0);

    let lo = log.last_offset();
    runner.step(&mut clock);
    assert_eq!(lo.wait(), Ok(0));
}

#[test]
fn last_offset_is_idempotent() {
    let (mut runner, log) = open_fresh("idempotent");
    let mut clock = ManualClock::at(0);

    let f = log.append(vec![9, 9]);
    runner.step(&mut clock);
    f.wait().unwrap();

    let a = log.last_offset();
    let b = log.last_offset();
    runner.step(&mut clock);
    let va = a.wait().unwrap();
    let vb = b.wait().unwrap();
    assert_eq!(va, vb);
    assert_eq!(va, 0);
}

#[test]
fn last_offset_covers_acknowledged_offsets() {
    let (mut runner, log) = open_fresh("covers");
    let mut clock = ManualClock::at(0);

    let futs: Vec<_> = (0..5u8).map(|i| log.append(vec![i])).collect();
    runner.step(&mut clock);
    let max_ack = futs.iter().map(|f| f.wait().unwrap()).max().unwrap();

    let lo = log.last_offset();
    runner.step(&mut clock);
    assert!(lo.wait().unwrap() >= max_ack);
}

#[test]
fn read_of_uncommitted_offset_fails_and_engine_continues() {
    let (mut runner, log) = open_fresh("uncommitted");
    let mut clock = ManualClock::at(0);

    let rd = log.read(ReadPosition::Offset(999), 1024);
    runner.step(&mut clock);
    match rd.wait() {
        Err(LogError::ReadFailed) => {},
        other => panic!("expected ReadFailed, got {:?}", other.map(|_| "batch")),
    }

    // the engine still services subsequent requests
    let f = log.append(vec![1, 2, 3]);
    runner.step(&mut clock);
    assert_eq!(f.wait(), Ok(0));
}

#[test]
fn read_latest_returns_empty_batch() {
    let (mut runner, log) = open_fresh("latest");
    let mut clock = ManualClock::at(0);

    let f = log.append(vec![7]);
    runner.step(&mut clock);
    f.wait().unwrap();

    let rd = log.read(ReadPosition::Latest, 1024);
    runner.step(&mut clock);
    let batch = rd.wait().expect("latest read should succeed");
    assert_eq!(batch.len(), 0);
}

#[test]
fn read_with_zero_limit_fails() {
    let (mut runner, log) = open_fresh("zerolimit");
    let mut clock = ManualClock::at(0);

    let f = log.append(vec![7]);
    runner.step(&mut clock);
    f.wait().unwrap();

    let rd = log.read(ReadPosition::Offset(0), 0);
    runner.step(&mut clock);
    assert!(matches!(rd.wait(), Err(LogError::ReadFailed)));
}

#[test]
fn dropped_future_does_not_cancel_the_append() {
    let (mut runner, log) = open_fresh("cancelfut");
    let mut clock = ManualClock::at(0);

    let fut = log.append(vec![1]);
    drop(fut);
    runner.step(&mut clock);

    // the engine still appended: the next append gets offset 1
    let f = log.append(vec![2]);
    runner.step(&mut clock);
    assert_eq!(f.wait(), Ok(1));
}

#[test]
fn oversized_append_reports_append_failed() {
    let (mut runner, log) = open_fresh("oversize");
    let mut clock = ManualClock::at(0);

    // beyond the log's per-message byte bound
    let fut = log.append(vec![0u8; 2_000_000]);
    runner.step(&mut clock);
    assert_eq!(fut.wait(), Err(LogError::AppendFailed));

    // a failed batch leaves the log unchanged
    let f = log.append(vec![1]);
    runner.step(&mut clock);
    assert_eq!(f.wait(), Ok(0));
}

#[test]
fn append_then_read_round_trip_later() {
    let (mut runner, log) = open_fresh("roundtrip");
    let mut clock = ManualClock::at(0);

    let payloads: Vec<Vec<u8>> = (0..6u8).map(|i| vec![i, i + 1, i + 2]).collect();
    for p in &payloads {
        let f = log.append(p.clone());
        runner.step(&mut clock);
        f.wait().unwrap();
    }

    for (i, p) in payloads.iter().enumerate() {
        let rd = log.read(ReadPosition::Offset(i as u64), 1024);
        runner.step(&mut clock);
        let batch = rd.wait().expect("read should succeed");
        assert!(batch.len() >= 1);
        assert_eq!(batch.payload_at(0), Some(p.clone()));
    }
}
