//! Flush cadence, pool behavior and the error paths around engine
//! teardown, driven with a manual clock.

use asynclog::clock::ManualClock;
use asynclog::engine::AppendRequest;
use asynclog::engine::LogConfig;
use asynclog::engine::LogRequest;
use asynclog::engine::ReadPosition;
use asynclog::errors::LogError;
use asynclog::handle::AsyncLog;
use asynclog::handle::Runner;

fn fresh_dir(tag: &str) -> String {
    let nanos = std::time::SystemTime::now()
        .duration_since(std::time::UNIX_EPOCH)
        .unwrap()
        .as_nanos();
    format!("/tmp/asynclog_test_{}_{}", tag, nanos)
}

fn open_with(cfg: &LogConfig) -> (Runner, AsyncLog) {
    AsyncLog::open(cfg, 0).expect("unable to open log")
}

#[test]
fn flush_cadence_is_throttled() {
    let cfg = LogConfig::new_for_dir(fresh_dir("cadence"));
    let (mut runner, _log) = open_with(&cfg);

    // continuous appends over three simulated seconds, one every 100 ms
    let mut flushes = 0;
    let mut t: u64 = 0;
    while t < 3000 {
        let (tx, _rx) = std::sync::mpsc::channel();
        let mut reqs = Vec::new();
        reqs.push(LogRequest::Append(AppendRequest { payload: vec![b'x'], completion: tx }));
        runner.engine.process_batch(reqs);
        if runner.engine.poll_flush_at(t) {
            flushes += 1;
        }
        t += 100;
    }

    // at most once per interval: the 1-second default allows at most
    // three fsyncs in three seconds, and this schedule produces two
    assert!(flushes <= 4);
    assert_eq!(flushes, 2);
}

#[test]
fn flush_waits_for_dirty_state() {
    let cfg = LogConfig::new_for_dir(fresh_dir("dirty"));
    let (mut runner, _log) = open_with(&cfg);

    // nothing appended: the timer alone never fires a flush
    assert!(!runner.engine.poll_flush_at(10_000));

    let (tx, _rx) = std::sync::mpsc::channel();
    let mut reqs = Vec::new();
    reqs.push(LogRequest::Append(AppendRequest { payload: vec![1], completion: tx }));
    runner.engine.process_batch(reqs);

    // dirty, but inside the interval
    assert!(!runner.engine.poll_flush_at(500));
    // dirty and past the interval
    assert!(runner.engine.poll_flush_at(1500));
    // clean again right after the flush
    assert!(!runner.engine.poll_flush_at(1600));
}

#[test]
fn pool_exhaustion_falls_back_to_owned_buffers() {
    let mut cfg = LogConfig::new_for_dir(fresh_dir("exhaust"));
    cfg.pool_capacity = 0;
    let (mut runner, log) = open_with(&cfg);
    let mut clock = ManualClock::at(0);

    let futs: Vec<_> = (0..10u8).map(|i| log.append(vec![i])).collect();
    runner.step(&mut clock);
    for (i, f) in futs.iter().enumerate() {
        assert_eq!(f.wait(), Ok(i as u64));
    }
}

#[test]
fn pooled_buffer_is_clean_on_reuse() {
    let mut cfg = LogConfig::new_for_dir(fresh_dir("reuse"));
    cfg.pool_capacity = 1;
    let (mut runner, log) = open_with(&cfg);
    let mut clock = ManualClock::at(0);

    // two batches through the same pooled buffer: a stale buffer would
    // re-append the first batch's message and shift the offsets
    let f1 = log.append(vec![b'a']);
    runner.step(&mut clock);
    assert_eq!(f1.wait(), Ok(0));

    let f2 = log.append(vec![b'b']);
    runner.step(&mut clock);
    assert_eq!(f2.wait(), Ok(1));

    let rd = log.read(ReadPosition::Offset(1), 1024);
    runner.step(&mut clock);
    let batch = rd.wait().expect("read should succeed");
    assert_eq!(batch.len(), 1);
    assert_eq!(batch.payload_at(0), Some(vec![b'b']));
}

#[test]
fn engine_gone_fails_new_requests() {
    let cfg = LogConfig::new_for_dir(fresh_dir("gone"));
    let (runner, log) = open_with(&cfg);
    drop(runner);

    let f = log.append(vec![1]);
    assert_eq!(f.wait(), Err(LogError::EngineGone));

    let lo = log.last_offset();
    assert_eq!(lo.wait(), Err(LogError::EngineGone));

    let rd = log.read(ReadPosition::Offset(0), 64);
    assert!(matches!(rd.wait(), Err(LogError::EngineGone)));
}

#[test]
fn torn_down_engine_cancels_pending_requests() {
    let cfg = LogConfig::new_for_dir(fresh_dir("cancel"));
    let (runner, log) = open_with(&cfg);

    // enqueued but never drained: tearing the engine down drops the
    // request, and the pending future resolves to a cancellation
    let f = log.append(vec![1]);
    drop(runner);
    assert_eq!(f.wait(), Err(LogError::Cancelled));
}

#[test]
fn step_reports_disconnection() {
    let cfg = LogConfig::new_for_dir(fresh_dir("disconnect"));
    let (mut runner, log) = open_with(&cfg);
    let mut clock = ManualClock::at(0);

    assert!(runner.step(&mut clock));
    drop(log);
    assert!(!runner.step(&mut clock));
}
